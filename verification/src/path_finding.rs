//! Grid path finding over the navigation meshes: a point may step to
//! any of its eight neighbours while it stands inside some mesh
//! rectangle, and a path is searched breadth-first, so a found path
//! has the fewest possible points.
use vstd::math::abs;
use vstd::math::max;
use vstd::math::min;
use vstd::prelude::*;

use crate::types::NavigationMeshComponent;
use crate::types::Point;

verus! {

/// Whether `p` lies inside mesh rectangle `m`, by x and z.
pub open spec fn point_in_mesh(p: Point, m: NavigationMeshComponent) -> bool {
    &&& m.left_up.x <= p.x <= m.right_down.x
    &&& m.left_up.z <= p.z <= m.right_down.z
}

/// Whether `p` lies inside some mesh rectangle of `ms`.
pub open spec fn in_any_mesh(p: Point, ms: Seq<NavigationMeshComponent>) -> bool {
    exists|j: int| 0 <= j < ms.len() && point_in_mesh(p, #[trigger] ms[j])
}

/// Every mesh keeps one step of room to the ends of the coordinate
/// range, so stepping off any of its points cannot wrap around.
pub open spec fn mesh_margins_ok(ms: Seq<NavigationMeshComponent>) -> bool {
    forall|j: int|
        0 <= j < ms.len() ==> {
            &&& (#[trigger] ms[j]).left_up.x > i32::MIN
            &&& ms[j].right_down.x < i32::MAX
            &&& ms[j].left_up.z > i32::MIN
            &&& ms[j].right_down.z < i32::MAX
        }
}

/// The eight neighbours of `p`, in the order they are tried.
pub open spec fn neighbor_points(p: Point) -> Seq<Point> {
    seq![
        Point { x: p.x, z: (p.z + 1) as i32, y: p.y },
        Point { x: (p.x + 1) as i32, z: (p.z + 1) as i32, y: p.y },
        Point { x: (p.x + 1) as i32, z: p.z, y: p.y },
        Point { x: (p.x + 1) as i32, z: (p.z - 1) as i32, y: p.y },
        Point { x: p.x, z: (p.z - 1) as i32, y: p.y },
        Point { x: (p.x - 1) as i32, z: (p.z - 1) as i32, y: p.y },
        Point { x: (p.x - 1) as i32, z: p.z, y: p.y },
        Point { x: (p.x - 1) as i32, z: (p.z + 1) as i32, y: p.y },
    ]
}

/// The points reachable from `p` in one step: its eight neighbours
/// while `p` stands inside some mesh, nothing otherwise.
pub open spec fn successors_of(p: Point, ms: Seq<NavigationMeshComponent>) -> Seq<Point> {
    if in_any_mesh(p, ms) {
        neighbor_points(p)
    } else {
        seq![]
    }
}

/// One legal step of a path.
pub open spec fn is_step(a: Point, b: Point, ms: Seq<NavigationMeshComponent>) -> bool {
    successors_of(a, ms).contains(b)
}

/// A walk from `src` to `dst` along legal steps, both ends included.
pub open spec fn is_mesh_path(
    path: Seq<Point>,
    src: Point,
    dst: Point,
    ms: Seq<NavigationMeshComponent>,
) -> bool {
    &&& path.len() >= 1
    &&& path[0] == src
    &&& path.last() == dst
    &&& forall|i: int| 0 <= i < path.len() - 1 ==> is_step(#[trigger] path[i], path[i + 1], ms)
}

/// The chessboard distance of two points in the x-z plane.
pub open spec fn chebyshev(a: Point, b: Point) -> int {
    max(abs(a.x - b.x) as int, abs(a.z - b.z) as int)
}

/// An axis-aligned bounding box.
pub struct AABB {
    pub min: Point,
    pub max: Point,
}

/// The smaller of four coordinates.
pub open spec fn min4(a: int, b: int, c: int, d: int) -> int {
    min(min(min(a, b), c), d)
}

/// The larger of four coordinates.
pub open spec fn max4(a: int, b: int, c: int, d: int) -> int {
    max(max(max(a, b), c), d)
}

fn min4_i32(a: i32, b: i32, c: i32, d: i32) -> (r: i32)
    ensures
        r as int == min4(a as int, b as int, c as int, d as int),
{
    let ab = if a <= b {
        a
    } else {
        b
    };
    let abc = if ab <= c {
        ab
    } else {
        c
    };
    if abc <= d {
        abc
    } else {
        d
    }
}

fn max4_i32(a: i32, b: i32, c: i32, d: i32) -> (r: i32)
    ensures
        r as int == max4(a as int, b as int, c as int, d as int),
{
    let ab = if a >= b {
        a
    } else {
        b
    };
    let abc = if ab >= c {
        ab
    } else {
        c
    };
    if abc >= d {
        abc
    } else {
        d
    }
}

impl NavigationMeshComponent {
    /// The bounding box of the four corners, coordinate by coordinate.
    pub open spec fn spec_aabb(&self) -> AABB {
        AABB {
            min: Point {
                x: min4(
                    self.left_up.x as int,
                    self.right_down.x as int,
                    self.right_up.x as int,
                    self.left_down.x as int,
                ) as i32,
                z: min4(
                    self.left_up.z as int,
                    self.right_down.z as int,
                    self.right_up.z as int,
                    self.left_down.z as int,
                ) as i32,
                y: min4(
                    self.left_up.y as int,
                    self.right_down.y as int,
                    self.right_up.y as int,
                    self.left_down.y as int,
                ) as i32,
            },
            max: Point {
                x: max4(
                    self.left_up.x as int,
                    self.right_down.x as int,
                    self.right_up.x as int,
                    self.left_down.x as int,
                ) as i32,
                z: max4(
                    self.left_up.z as int,
                    self.right_down.z as int,
                    self.right_up.z as int,
                    self.left_down.z as int,
                ) as i32,
                y: max4(
                    self.left_up.y as int,
                    self.right_down.y as int,
                    self.right_up.y as int,
                    self.left_down.y as int,
                ) as i32,
            },
        }
    }

    /// The bounding box of this mesh rectangle's four corners.
    pub fn aabb(&self) -> (r: AABB)
        ensures
            r == self.spec_aabb(),
    {
        let min_x = min4_i32(self.left_up.x, self.right_down.x, self.right_up.x, self.left_down.x);
        let max_x = max4_i32(self.left_up.x, self.right_down.x, self.right_up.x, self.left_down.x);

        let min_y = min4_i32(self.left_up.y, self.right_down.y, self.right_up.y, self.left_down.y);
        let max_y = max4_i32(self.left_up.y, self.right_down.y, self.right_up.y, self.left_down.y);

        let min_z = min4_i32(self.left_up.z, self.right_down.z, self.right_up.z, self.left_down.z);
        let max_z = max4_i32(self.left_up.z, self.right_down.z, self.right_up.z, self.left_down.z);

        AABB {
            min: Point { x: min_x, y: min_y, z: min_z },
            max: Point { x: max_x, y: max_y, z: max_z },
        }
    }
}

/// Whether two bounding boxes touch or overlap on every axis.
pub open spec fn spec_aabb_collision(a: AABB, b: AABB) -> bool {
    &&& a.min.x <= b.max.x && a.max.x >= b.min.x
    &&& a.min.y <= b.max.y && a.max.y >= b.min.y
    &&& a.min.z <= b.max.z && a.max.z >= b.min.z
}

/// Whether two bounding boxes touch or overlap.
pub fn aabb_collision(a: &AABB, b: &AABB) -> (r: bool)
    ensures
        r == spec_aabb_collision(*a, *b),
{
    a.min.x <= b.max.x && a.max.x >= b.min.x && a.min.y <= b.max.y && a.max.y >= b.min.y
        && a.min.z <= b.max.z && a.max.z >= b.min.z
}

/// Whether the bounding boxes of two mesh rectangles touch or
/// overlap, that is, whether they are connected for walking.
pub fn shapes_collision(a: &NavigationMeshComponent, b: &NavigationMeshComponent) -> (r: bool)
    ensures
        r == spec_aabb_collision(a.spec_aabb(), b.spec_aabb()),
{
    let aabb_a = a.aabb();
    let aabb_b = b.aabb();
    aabb_collision(&aabb_a, &aabb_b)
}

/// Whether `p` stands inside some mesh rectangle.
fn in_some_mesh(p: &Point, navigation_mesh_components: &Vec<NavigationMeshComponent>) -> (r: bool)
    ensures
        r == in_any_mesh(*p, navigation_mesh_components@),
{
    let n = navigation_mesh_components.len();
    let mut j: usize = 0;
    while j < n
        invariant
            n == navigation_mesh_components@.len(),
            j <= n,
            forall|k: int|
                0 <= k < j ==> !point_in_mesh(*p, #[trigger] navigation_mesh_components@[k]),
        decreases n - j,
    {
        let mesh = &navigation_mesh_components[j];
        if p.x >= mesh.left_up.x && p.x <= mesh.right_down.x && p.z >= mesh.left_up.z && p.z
            <= mesh.right_down.z {
            return true;
        }
        j += 1;
    }
    false
}

/// The points reachable from `p` in one step.
fn next_possible_points(
    p: &Point,
    navigation_mesh_components: &Vec<NavigationMeshComponent>,
) -> (possible_points: Vec<Point>)
    requires
        mesh_margins_ok(navigation_mesh_components@),
    ensures
        possible_points@ == successors_of(*p, navigation_mesh_components@),
{
    if !in_some_mesh(p, navigation_mesh_components) {
        let possible_points: Vec<Point> = Vec::new();
        proof {
            assert(possible_points@ =~= successors_of(*p, navigation_mesh_components@));
        }
        return possible_points;
    }
    proof {
        // an in-mesh point has one step of room on every side, so the
        // eight neighbours stay within the coordinate range
        let ms = navigation_mesh_components@;
        let j = choose|j: int| 0 <= j < ms.len() && point_in_mesh(*p, #[trigger] ms[j]);
        assert(ms[j].left_up.x > i32::MIN);
    }
    let possible_points = vec![
        Point { x: p.x, z: p.z + 1, y: p.y },
        Point { x: p.x + 1, z: p.z + 1, y: p.y },
        Point { x: p.x + 1, z: p.z, y: p.y },
        Point { x: p.x + 1, z: p.z - 1, y: p.y },
        Point { x: p.x, z: p.z - 1, y: p.y },
        Point { x: p.x - 1, z: p.z - 1, y: p.y },
        Point { x: p.x - 1, z: p.z, y: p.y },
        Point { x: p.x - 1, z: p.z + 1, y: p.y },
    ];
    proof {
        assert(possible_points@ =~= successors_of(*p, navigation_mesh_components@));
    }
    possible_points
}

/// Every walk from `src` to `dst` holds at least the chessboard
/// distance of steps, and never leaves the horizontal plane of `src`.
pub proof fn lemma_mesh_path_bounds(
    path: Seq<Point>,
    src: Point,
    dst: Point,
    ms: Seq<NavigationMeshComponent>,
)
    requires
        mesh_margins_ok(ms),
        is_mesh_path(path, src, dst, ms),
    ensures
        path.len() >= chebyshev(src, dst) + 1,
        src.y == dst.y,
    decreases path.len(),
{
    if path.len() == 1 {
        assert(src == dst);
    } else {
        assert(is_step(path[0], path[1], ms));
        let next = path[1];
        assert(in_any_mesh(src, ms));
        let j = choose|j: int| 0 <= j < ms.len() && point_in_mesh(src, #[trigger] ms[j]);
        assert(ms[j].left_up.x > i32::MIN);
        let s = neighbor_points(src);
        assert(s.contains(next));
        let k = choose|k: int| 0 <= k < s.len() && s[k] == next;
        assert(abs(src.x - next.x) <= 1 && abs(src.z - next.z) <= 1 && src.y == next.y);
        let tail = path.subrange(1, path.len() as int);
        assert(is_mesh_path(tail, next, dst, ms)) by {
            assert(tail[0] == next);
            assert(tail.last() == dst);
            assert forall|i: int| 0 <= i < tail.len() - 1 implies is_step(
                #[trigger] tail[i],
                tail[i + 1],
                ms,
            ) by {
                assert(tail[i] == path[i + 1]);
                assert(tail[i + 1] == path[i + 2]);
                assert(is_step(path[i + 1], path[i + 2], ms));
            }
        }
        lemma_mesh_path_bounds(tail, next, dst, ms);
        assert(chebyshev(src, dst) <= chebyshev(next, dst) + 1);
    }
}

/// Relies on pathfinding's breadth-first search `bfs`: the result is
/// a path from the start along the successor function to the first
/// point satisfying the goal test, with both ends included, of
/// minimal length among all such paths; it is `None` exactly when no
/// such path exists.
#[verifier::external_body]
fn bfs_search(
    mesh_components: &Vec<NavigationMeshComponent>,
    src: &Point,
    dst: &Point,
) -> (result: Option<Vec<Point>>)
    requires
        mesh_margins_ok(mesh_components@),
    ensures
        match result {
            Some(path) => is_mesh_path(path@, *src, *dst, mesh_components@) && forall|q: Seq<Point>|
                is_mesh_path(q, *src, *dst, mesh_components@) ==> path@.len() <= q.len(),
            None => forall|q: Seq<Point>| !is_mesh_path(q, *src, *dst, mesh_components@),
        },
{
    pathfinding::prelude::bfs(
        src,
        |p| next_possible_points(p, mesh_components),
        |p| *p == *dst,
    )
}

/// The shortest walk from `src` to `dst` through the meshes, both
/// ends included, or `None` when no walk connects them.
pub fn find_path(
    mesh_components: &Vec<NavigationMeshComponent>,
    src: &Point,
    dst: &Point,
) -> (result: Option<Vec<Point>>)
    requires
        mesh_margins_ok(mesh_components@),
    ensures
        match result {
            Some(path) => {
                &&& is_mesh_path(path@, *src, *dst, mesh_components@)
                &&& forall|q: Seq<Point>|
                    is_mesh_path(q, *src, *dst, mesh_components@) ==> path@.len() <= q.len()
                &&& path@.len() >= chebyshev(*src, *dst) + 1
                &&& src.y == dst.y
            },
            None => forall|q: Seq<Point>| !is_mesh_path(q, *src, *dst, mesh_components@),
        },
{
    let result = bfs_search(mesh_components, src, dst);
    if let Some(path) = &result {
        proof {
            lemma_mesh_path_bounds(path@, *src, *dst, mesh_components@);
        }
    }
    result
}

} // verus!
