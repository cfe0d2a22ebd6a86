use orkkypely::path_finding::find_path;
use orkkypely::path_finding::shapes_collision;
use orkkypely::types::NavigationMeshComponent;
use orkkypely::types::Point;

#[test]
fn find_simple_straight_path() {
    let navigation_mesh = vec![NavigationMeshComponent {
        left_up: Point { x: 0, z: 0, y: 0 },
        right_down: Point { x: 5, z: 5, y: 0 },
        right_up: Point { x: 5, z: 0, y: 0 },
        left_down: Point { x: 0, z: 5, y: 0 },
    }];

    let src = Point { x: 1, z: 1, y: 0 };
    let target = Point { x: 4, z: 4, y: 0 };

    let path = find_path(&navigation_mesh, &src, &target);

    assert_eq!(
        path.unwrap(),
        vec![
            Point { x: 1, z: 1, y: 0 },
            Point { x: 2, z: 2, y: 0 },
            Point { x: 3, z: 3, y: 0 },
            Point { x: 4, z: 4, y: 0 }
        ]
    );
}

#[test]
fn find_path_to_another_mesh() {
    let navigation_mesh = vec![
        NavigationMeshComponent {
            left_up: Point { x: 0, z: 0, y: 0 },
            right_down: Point { x: 5, z: 5, y: 0 },
            right_up: Point { x: 5, z: 0, y: 0 },
            left_down: Point { x: 0, z: 5, y: 0 },
        },
        NavigationMeshComponent {
            left_up: Point { x: 0, z: 5, y: 0 },
            right_down: Point { x: 5, z: 10, y: 0 },
            right_up: Point { x: 5, z: 5, y: 0 },
            left_down: Point { x: 0, z: 10, y: 0 },
        },
    ];

    let src = Point { x: 2, z: 3, y: 0 };
    let target = Point { x: 2, z: 7, y: 0 };

    let path = find_path(&navigation_mesh, &src, &target);

    assert_eq!(
        path.unwrap(),
        vec![
            Point { x: 2, z: 3, y: 0 },
            Point { x: 2, z: 4, y: 0 },
            Point { x: 2, z: 5, y: 0 },
            Point { x: 2, z: 6, y: 0 },
            Point { x: 2, z: 7, y: 0 }
        ]
    );
}

#[test]
fn test_is_connected() {
    let curr = NavigationMeshComponent {
        left_up: Point { x: 0, z: 0, y: 0 },
        right_up: Point { x: 1, z: 0, y: 0 },
        left_down: Point { x: 0, z: 1, y: 0 },
        right_down: Point { x: 1, z: 1, y: 0 },
    };
    let mesh = NavigationMeshComponent {
        left_up: Point { x: 0, z: 1, y: 0 },
        right_up: Point { x: 1, z: 1, y: 0 },
        left_down: Point { x: 0, z: 2, y: 0 },
        right_down: Point { x: 2, z: 2, y: 0 },
    };

    assert_eq!(shapes_collision(&curr, &mesh), true);
}

#[test]
fn test_is_not_connected() {
    let curr = NavigationMeshComponent {
        left_up: Point { x: 0, z: 0, y: 0 },
        right_up: Point { x: 1, z: 0, y: 0 },
        left_down: Point { x: 0, z: 1, y: 0 },
        right_down: Point { x: 1, z: 1, y: 0 },
    };
    let mesh = NavigationMeshComponent {
        left_up: Point { x: 0, z: 2, y: 0 },
        right_up: Point { x: 2, z: 2, y: 0 },
        left_down: Point { x: 0, z: 3, y: 0 },
        right_down: Point { x: 3, z: 3, y: 0 },
    };

    assert_eq!(shapes_collision(&curr, &mesh), false);
}

#[test]
fn path_to_same_point_is_the_point() {
    let navigation_mesh = vec![NavigationMeshComponent {
        left_up: Point { x: 0, z: 0, y: 0 },
        right_down: Point { x: 5, z: 5, y: 0 },
        right_up: Point { x: 5, z: 0, y: 0 },
        left_down: Point { x: 0, z: 5, y: 0 },
    }];

    let src = Point { x: 2, z: 2, y: 0 };

    let path = find_path(&navigation_mesh, &src, &src);

    assert_eq!(path.unwrap(), vec![Point { x: 2, z: 2, y: 0 }]);
}

#[test]
fn no_path_off_the_meshes() {
    let navigation_mesh = vec![NavigationMeshComponent {
        left_up: Point { x: 0, z: 0, y: 0 },
        right_down: Point { x: 1, z: 1, y: 0 },
        right_up: Point { x: 1, z: 0, y: 0 },
        left_down: Point { x: 0, z: 1, y: 0 },
    }];

    let src = Point { x: 0, z: 0, y: 0 };
    let target = Point { x: 0, z: 5, y: 0 };

    let path = find_path(&navigation_mesh, &src, &target);

    assert!(path.is_none());
}
