//! The body frame: a mesh, the three marker points that carry its
//! orientation, and the chase camera, all of which move together.
//!
//! Nothing outside this module can move one of them alone. A motion is a map
//! on points, and `Body::transform` applies one map to all of them.
use vstd::prelude::*;
use crate::markers::{has_nan, is_last_max_coord, last_max_coord, markers_are_clear, markers_clear};
use crate::mesh::Mesh;
use crate::scalar::Scalar;

verus! {

/// A camera: where it stands, what it looks at, and which way is up.
#[derive(Clone, Copy, Debug)]
pub struct Camera<P> {
    pub position: P,
    pub target: P,
    pub up: P,
}

/// Why no body could be made.
#[derive(Clone, Copy, Debug, PartialEq, Eq, Structural)]
pub enum FrameError {
    /// The nose marker names no point of the mesh.
    HeadOutOfRange,
    /// The wing tip marker names no point of the mesh.
    WingTipOutOfRange,
    /// A list from which a marker is chosen has not one entry for each
    /// point of the mesh.
    MarkerCount,
    /// A coordinate from which a marker is chosen is a NaN.
    NotANumber,
    /// The nose or the wing tip lies on the center, so the body has no axes.
    MarkerOnCenter,
}

/// `reach` can give the distances of `head` and `right_wing_tip` from
/// `center`, and by those distances the markers are clear of the center
/// (`clear` is true) or are not (`clear` is false).
pub open spec fn clearance<P, R: Fn(P, P) -> Scalar>(
    reach: &R,
    center: P,
    head: P,
    right_wing_tip: P,
    epsilon: Scalar,
    clear: bool,
) -> bool {
    exists|head_reach: Scalar, wing_reach: Scalar|
        {
            &&& #[trigger] reach.ensures((center, head), head_reach)
            &&& #[trigger] reach.ensures((center, right_wing_tip), wing_reach)
            &&& markers_clear(head_reach, wing_reach, epsilon) == clear
        }
}

/// An axis of the body's own basis.
#[derive(Clone, Copy, Debug, PartialEq, Eq, Structural)]
pub enum Axis {
    /// From the center to the nose.
    Forward,
    /// Away from the belly.
    Up,
    /// From the center to the right wing tip.
    Right,
}

/// One turn about an axis of the body, through its center.
#[derive(Clone, Copy, Debug)]
pub struct Turn<S> {
    pub about: Axis,
    pub angle: S,
}

/// The three turns that make a rotation by roll, yaw and pitch angles, in
/// the order in which they are made: roll about the forward axis, then yaw
/// about the up axis, then pitch about the right axis. Each axis is the one
/// that the body has when its turn comes, so the order matters.
pub fn turns<S: Copy>(roll: S, yaw: S, pitch: S) -> (r: [Turn<S>; 3])
    ensures
        r[0] == (Turn { about: Axis::Forward, angle: roll }),
        r[1] == (Turn { about: Axis::Up, angle: yaw }),
        r[2] == (Turn { about: Axis::Right, angle: pitch }),
{
    [
        Turn { about: Axis::Forward, angle: roll },
        Turn { about: Axis::Up, angle: yaw },
        Turn { about: Axis::Right, angle: pitch },
    ]
}

/// What a body is, as plain values.
pub ghost struct Pose<P> {
    pub points: Seq<P>,
    pub indices: Seq<u16>,
    pub center: P,
    pub head: P,
    pub right_wing_tip: P,
    pub velocity: P,
    pub angular_velocity: P,
    pub camera: Camera<P>,
}

impl<P> Pose<P> {
    /// The points whose distances from one another make the shape of the
    /// body: the points of the mesh, then center, nose and wing tip.
    pub open spec fn shape(self) -> Seq<P> {
        self.points + seq![self.center, self.head, self.right_wing_tip]
    }

    /// `f` can be applied to every point that moves with the body.
    pub open spec fn in_reach_of<F: Fn(P) -> P>(self, f: &F) -> bool {
        &&& forall|i: int| 0 <= i < self.points.len() ==> #[trigger] f.requires((self.points[i],))
        &&& f.requires((self.center,))
        &&& f.requires((self.head,))
        &&& f.requires((self.right_wing_tip,))
        &&& f.requires((self.camera.position,))
        &&& f.requires((self.camera.target,))
    }

    /// `after` is this pose with every point replaced by an image of it,
    /// where `image(p, q)` says that `q` is an image of `p`, and the camera's
    /// up direction by what `up_of` makes of the new center, nose and wing
    /// tip. Indices and velocities are the same.
    pub open spec fn carried_to<U: Fn(P, P, P) -> P>(
        self,
        after: Pose<P>,
        image: spec_fn(P, P) -> bool,
        up_of: &U,
    ) -> bool {
        &&& after.indices == self.indices
        &&& after.velocity == self.velocity
        &&& after.angular_velocity == self.angular_velocity
        &&& after.points.len() == self.points.len()
        &&& forall|i: int|
            0 <= i < self.points.len() ==> image(#[trigger] self.points[i], after.points[i])
        &&& image(self.center, after.center)
        &&& image(self.head, after.head)
        &&& image(self.right_wing_tip, after.right_wing_tip)
        &&& image(self.camera.position, after.camera.position)
        &&& image(self.camera.target, after.camera.target)
        &&& up_of.ensures((after.center, after.head, after.right_wing_tip), after.camera.up)
    }

    /// `after` is this pose moved by the map `f`: carried to `after`, with
    /// the results of `f` as images.
    pub open spec fn moved_to<F: Fn(P) -> P, U: Fn(P, P, P) -> P>(
        self,
        after: Pose<P>,
        f: &F,
        up_of: &U,
    ) -> bool {
        self.carried_to(after, |p: P, q: P| f.ensures((p,), q), up_of)
    }

    /// `after` is this pose translated by `by`: the image of a point is what
    /// `shift` makes of the point and `by`.
    pub open spec fn shifted_to<Sh: Fn(P, P) -> P, U: Fn(P, P, P) -> P>(
        self,
        after: Pose<P>,
        by: P,
        shift: &Sh,
        up_of: &U,
    ) -> bool {
        self.carried_to(after, |p: P, q: P| shift.ensures((p, by), q), up_of)
    }

    /// `after` is this pose rotated about `axis` by `angle`, through
    /// `pivot`: the image of a point is what `turn` makes of axis, angle,
    /// pivot and the point.
    pub open spec fn rotated_to<S, T: Fn(P, S, P, P) -> P, U: Fn(P, P, P) -> P>(
        self,
        after: Pose<P>,
        axis: P,
        angle: S,
        pivot: P,
        turn: &T,
        up_of: &U,
    ) -> bool {
        self.carried_to(after, |p: P, q: P| turn.ensures((axis, angle, pivot, p), q), up_of)
    }

    /// `after` is this pose turned about one of its own axes by `angle`,
    /// through its center: rotated about the axis that `axis_of` gives from
    /// center, nose and wing tip as they are before the turn.
    pub open spec fn turned_to<
        S,
        A: Fn(Axis, P, P, P) -> P,
        T: Fn(P, S, P, P) -> P,
        U: Fn(P, P, P) -> P,
    >(self, after: Pose<P>, about: Axis, angle: S, axis_of: &A, turn: &T, up_of: &U) -> bool {
        exists|axis: P|
            {
                &&& #[trigger] axis_of.ensures(
                    (about, self.center, self.head, self.right_wing_tip),
                    axis,
                )
                &&& self.rotated_to(after, axis, angle, self.center, turn, up_of)
            }
    }
}

/// The aircraft: its mesh, its markers, its motion and its camera.
pub struct Body<P> {
    center: P,
    head: P,
    right_wing_tip: P,
    velocity: P,
    angular_velocity: P,
    mesh: Mesh<P>,
    camera: Camera<P>,
}

impl<P> View for Body<P> {
    type V = Pose<P>;

    closed spec fn view(&self) -> Pose<P> {
        Pose {
            points: self.mesh.points(),
            indices: self.mesh.index_list(),
            center: self.center,
            head: self.head,
            right_wing_tip: self.right_wing_tip,
            velocity: self.velocity,
            angular_velocity: self.angular_velocity,
            camera: self.camera,
        }
    }
}

impl<P: Copy> Body<P> {
    /// Makes a body at rest of `mesh`. The nose and the wing tip are the
    /// points of the mesh at places `head` and `right_wing_tip`; `center` is
    /// its reference point, `rest` the velocity of a body that does not move.
    /// `reach` measures how far a marker lies from the center: a body whose
    /// nose or wing tip is not further from it than `epsilon` is refused.
    pub fn new<R: Fn(P, P) -> Scalar>(
        mesh: Mesh<P>,
        head: usize,
        right_wing_tip: usize,
        center: P,
        rest: P,
        camera: Camera<P>,
        reach: &R,
        epsilon: Scalar,
    ) -> (r: Result<Body<P>, FrameError>)
        requires
            forall|a: P, b: P| reach.requires((a, b)),
        ensures
            match r {
                Ok(body) => {
                    &&& head < mesh.points().len()
                    &&& right_wing_tip < mesh.points().len()
                    &&& body@ == (Pose {
                        points: mesh.points(),
                        indices: mesh.index_list(),
                        center: center,
                        head: mesh.points()[head as int],
                        right_wing_tip: mesh.points()[right_wing_tip as int],
                        velocity: rest,
                        angular_velocity: rest,
                        camera: camera,
                    })
                    &&& clearance(reach, center, body@.head, body@.right_wing_tip, epsilon, true)
                },
                Err(FrameError::HeadOutOfRange) => head >= mesh.points().len(),
                Err(FrameError::WingTipOutOfRange) => {
                    head < mesh.points().len() && right_wing_tip >= mesh.points().len()
                },
                Err(FrameError::MarkerOnCenter) => {
                    &&& head < mesh.points().len()
                    &&& right_wing_tip < mesh.points().len()
                    &&& clearance(
                        reach,
                        center,
                        mesh.points()[head as int],
                        mesh.points()[right_wing_tip as int],
                        epsilon,
                        false,
                    )
                },
                Err(_) => false,
            },
    {
        if head >= mesh.vertex_count() {
            return Err(FrameError::HeadOutOfRange);
        }
        if right_wing_tip >= mesh.vertex_count() {
            return Err(FrameError::WingTipOutOfRange);
        }
        let nose: P = mesh.vertices()[head];
        let tip: P = mesh.vertices()[right_wing_tip];
        let head_reach: Scalar = reach(center, nose);
        let wing_reach: Scalar = reach(center, tip);
        if !markers_are_clear(head_reach, wing_reach, epsilon) {
            return Err(FrameError::MarkerOnCenter);
        }
        Ok(
            Body {
                center,
                head: nose,
                right_wing_tip: tip,
                velocity: rest,
                angular_velocity: rest,
                mesh,
                camera,
            },
        )
    }

    /// Makes a body at rest of `mesh` and chooses its markers: the nose is
    /// the point with the greatest of `forward_coords`, the wing tip the
    /// point with the greatest of `right_coords`, and of several that are
    /// equally great the last. Both lists have one entry for each point of
    /// the mesh, in the order of its points: its coordinate along the
    /// forward axis and along the right axis. The camera is what `mount`
    /// makes of center, nose and wing tip. `reach` measures how far a marker
    /// lies from the center: a body whose nose or wing tip is not further
    /// from it than `epsilon` is refused.
    pub fn with_markers<M: Fn(P, P, P) -> Camera<P>, R: Fn(P, P) -> Scalar>(
        mesh: Mesh<P>,
        forward_coords: &Vec<Scalar>,
        right_coords: &Vec<Scalar>,
        center: P,
        rest: P,
        mount: &M,
        reach: &R,
        epsilon: Scalar,
    ) -> (r: Result<Body<P>, FrameError>)
        requires
            forall|c: P, h: P, w: P| mount.requires((c, h, w)),
            forall|a: P, b: P| reach.requires((a, b)),
        ensures
            match r {
                Ok(body) => {
                    &&& forward_coords@.len() == mesh.points().len()
                    &&& right_coords@.len() == mesh.points().len()
                    &&& !has_nan(forward_coords@)
                    &&& !has_nan(right_coords@)
                    &&& exists|h: int, w: int|
                        {
                            &&& #[trigger] is_last_max_coord(forward_coords@, h)
                            &&& #[trigger] is_last_max_coord(right_coords@, w)
                            &&& body@.head == mesh.points()[h]
                            &&& body@.right_wing_tip == mesh.points()[w]
                        }
                    &&& body@.points == mesh.points()
                    &&& body@.indices == mesh.index_list()
                    &&& body@.center == center
                    &&& body@.velocity == rest
                    &&& body@.angular_velocity == rest
                    &&& mount.ensures((center, body@.head, body@.right_wing_tip), body@.camera)
                    &&& clearance(reach, center, body@.head, body@.right_wing_tip, epsilon, true)
                },
                Err(FrameError::MarkerCount) => {
                    forward_coords@.len() != mesh.points().len() || right_coords@.len()
                        != mesh.points().len()
                },
                Err(FrameError::NotANumber) => {
                    &&& forward_coords@.len() == mesh.points().len()
                    &&& right_coords@.len() == mesh.points().len()
                    &&& has_nan(forward_coords@) || has_nan(right_coords@)
                },
                Err(FrameError::MarkerOnCenter) => {
                    &&& forward_coords@.len() == mesh.points().len()
                    &&& right_coords@.len() == mesh.points().len()
                    &&& !has_nan(forward_coords@)
                    &&& !has_nan(right_coords@)
                    &&& exists|h: int, w: int|
                        {
                            &&& #[trigger] is_last_max_coord(forward_coords@, h)
                            &&& #[trigger] is_last_max_coord(right_coords@, w)
                            &&& clearance(
                                reach,
                                center,
                                mesh.points()[h],
                                mesh.points()[w],
                                epsilon,
                                false,
                            )
                        }
                },
                Err(_) => false,
            },
    {
        let n: usize = mesh.vertex_count();
        if forward_coords.len() != n || right_coords.len() != n {
            return Err(FrameError::MarkerCount);
        }
        let head: usize = match last_max_coord(forward_coords) {
            Ok(h) => h,
            Err(_) => {
                return Err(FrameError::NotANumber);
            },
        };
        let tip: usize = match last_max_coord(right_coords) {
            Ok(w) => w,
            Err(_) => {
                return Err(FrameError::NotANumber);
            },
        };
        let camera: Camera<P> = mount(center, mesh.vertices()[head], mesh.vertices()[tip]);
        let made = Body::new(mesh, head, tip, center, rest, camera, reach, epsilon);
        proof {
            assert(is_last_max_coord(forward_coords@, head as int));
            assert(is_last_max_coord(right_coords@, tip as int));
        }
        made
    }

    /// The reference point.
    pub fn center(&self) -> (p: P)
        ensures
            p == self@.center,
    {
        self.center
    }

    /// The nose marker.
    pub fn head(&self) -> (p: P)
        ensures
            p == self@.head,
    {
        self.head
    }

    /// The wing tip marker.
    pub fn right_wing_tip(&self) -> (p: P)
        ensures
            p == self@.right_wing_tip,
    {
        self.right_wing_tip
    }

    /// The linear velocity.
    pub fn velocity(&self) -> (p: P)
        ensures
            p == self@.velocity,
    {
        self.velocity
    }

    /// The angular velocity.
    pub fn angular_velocity(&self) -> (p: P)
        ensures
            p == self@.angular_velocity,
    {
        self.angular_velocity
    }

    /// The camera.
    pub fn camera(&self) -> (c: Camera<P>)
        ensures
            c == self@.camera,
    {
        self.camera
    }

    /// The mesh, for reading.
    pub fn mesh(&self) -> (m: &Mesh<P>)
        ensures
            m.points() == self@.points,
            m.index_list() == self@.indices,
    {
        &self.mesh
    }

    /// Sets both velocities. Nothing else changes.
    pub fn set_motion(&mut self, velocity: P, angular_velocity: P)
        ensures
            final(self)@ == (Pose {
                velocity: velocity,
                angular_velocity: angular_velocity,
                ..old(self)@
            }),
    {
        self.velocity = velocity;
        self.angular_velocity = angular_velocity;
    }

    /// Moves the body: every point of the mesh, the three markers and the
    /// camera's position and target are replaced by their images under `f`.
    /// Then the camera's up direction is taken anew from `up_of`, applied to
    /// the moved center, nose and wing tip.
    pub fn transform<F: Fn(P) -> P, U: Fn(P, P, P) -> P>(&mut self, f: &F, up_of: &U)
        requires
            old(self)@.in_reach_of(f),
            forall|c: P, h: P, w: P| up_of.requires((c, h, w)),
        ensures
            old(self)@.moved_to(final(self)@, f, up_of),
    {
        assert(self@.points == self.mesh.points());
        self.mesh.transform(f);
        self.center = f(self.center);
        self.head = f(self.head);
        self.right_wing_tip = f(self.right_wing_tip);
        let position: P = f(self.camera.position);
        let target: P = f(self.camera.target);
        let up: P = up_of(self.center, self.head, self.right_wing_tip);
        self.camera = Camera { position, target, up };
    }
    /// Translates the body by `by`: every point that moves with it is
    /// replaced by what `shift` makes of the point and `by`.
    pub fn translate<Sh: Fn(P, P) -> P, U: Fn(P, P, P) -> P>(&mut self, by: P, shift: &Sh, up_of: &U)
        requires
            forall|p: P, d: P| shift.requires((p, d)),
            forall|c: P, h: P, w: P| up_of.requires((c, h, w)),
        ensures
            old(self)@.shifted_to(final(self)@, by, shift, up_of),
    {
        let image = |p: P| -> (q: P)
            requires
                shift.requires((p, by)),
            ensures
                shift.ensures((p, by), q),
            { shift(p, by) };
        let ghost before = self@;
        self.transform(&image, up_of);
        proof {
            assert(before.carried_to(self@, |p: P, q: P| shift.ensures((p, by), q), up_of));
        }
    }

    /// Rotates the body about `axis` by `angle`, through `pivot`: every
    /// point that moves with it is replaced by what `turn` makes of axis,
    /// angle, pivot and the point.
    pub fn rotate_about_point<S: Copy, T: Fn(P, S, P, P) -> P, U: Fn(P, P, P) -> P>(
        &mut self,
        axis: P,
        angle: S,
        pivot: P,
        turn: &T,
        up_of: &U,
    )
        requires
            forall|a: P, s: S, c: P, p: P| turn.requires((a, s, c, p)),
            forall|c: P, h: P, w: P| up_of.requires((c, h, w)),
        ensures
            old(self)@.rotated_to(final(self)@, axis, angle, pivot, turn, up_of),
    {
        let image = |p: P| -> (q: P)
            requires
                turn.requires((axis, angle, pivot, p)),
            ensures
                turn.ensures((axis, angle, pivot, p), q),
            { turn(axis, angle, pivot, p) };
        let ghost before = self@;
        self.transform(&image, up_of);
        proof {
            assert(before.carried_to(
                self@,
                |p: P, q: P| turn.ensures((axis, angle, pivot, p), q),
                up_of,
            ));
        }
    }

    /// Turns the body about one of its own axes by `angle`, through its
    /// center. The axis is taken from the markers as they are now.
    pub fn turn_about<S: Copy, A: Fn(Axis, P, P, P) -> P, T: Fn(P, S, P, P) -> P, U: Fn(P, P, P) -> P>(
        &mut self,
        about: Axis,
        angle: S,
        axis_of: &A,
        turn: &T,
        up_of: &U,
    )
        requires
            forall|k: Axis, c: P, h: P, w: P| axis_of.requires((k, c, h, w)),
            forall|a: P, s: S, c: P, p: P| turn.requires((a, s, c, p)),
            forall|c: P, h: P, w: P| up_of.requires((c, h, w)),
        ensures
            old(self)@.turned_to(final(self)@, about, angle, axis_of, turn, up_of),
    {
        let pivot: P = self.center;
        let axis: P = axis_of(about, self.center, self.head, self.right_wing_tip);
        self.rotate_about_point(axis, angle, pivot, turn, up_of);
    }

    /// Rotates the body by roll, yaw and pitch angles: three turns through
    /// its center, about its forward axis, then its up axis, then its right
    /// axis, each axis taken from the markers as the turns before it left
    /// them.
    pub fn rotate_by<S: Copy, A: Fn(Axis, P, P, P) -> P, T: Fn(P, S, P, P) -> P, U: Fn(P, P, P) -> P>(
        &mut self,
        roll: S,
        yaw: S,
        pitch: S,
        axis_of: &A,
        turn: &T,
        up_of: &U,
    )
        requires
            forall|k: Axis, c: P, h: P, w: P| axis_of.requires((k, c, h, w)),
            forall|a: P, s: S, c: P, p: P| turn.requires((a, s, c, p)),
            forall|c: P, h: P, w: P| up_of.requires((c, h, w)),
        ensures
            exists|rolled: Pose<P>, yawed: Pose<P>|
                {
                    &&& #[trigger] old(self)@.turned_to(
                        rolled,
                        Axis::Forward,
                        roll,
                        axis_of,
                        turn,
                        up_of,
                    )
                    &&& #[trigger] rolled.turned_to(yawed, Axis::Up, yaw, axis_of, turn, up_of)
                    &&& yawed.turned_to(final(self)@, Axis::Right, pitch, axis_of, turn, up_of)
                },
    {
        let order: [Turn<S>; 3] = turns(roll, yaw, pitch);
        self.turn_about(order[0].about, order[0].angle, axis_of, turn, up_of);
        let ghost rolled = self@;
        self.turn_about(order[1].about, order[1].angle, axis_of, turn, up_of);
        let ghost yawed = self@;
        self.turn_about(order[2].about, order[2].angle, axis_of, turn, up_of);
        proof {
            assert(old(self)@.turned_to(rolled, Axis::Forward, roll, axis_of, turn, up_of));
            assert(rolled.turned_to(yawed, Axis::Up, yaw, axis_of, turn, up_of));
        }
    }
}

/// Where a pose is carried to another, every point of the body's shape
/// goes to an image of it: the point at each place of `shape` to the point
/// at the same place.
proof fn lemma_shape_carried<P, U: Fn(P, P, P) -> P>(
    before: Pose<P>,
    after: Pose<P>,
    image: spec_fn(P, P) -> bool,
    up_of: &U,
)
    requires
        before.carried_to(after, image, up_of),
    ensures
        after.shape().len() == before.shape().len(),
        forall|i: int|
            0 <= i < before.shape().len() ==> image(before.shape()[i], #[trigger] after.shape()[i]),
{
    let n = before.points.len() as int;
    assert forall|i: int| 0 <= i < before.shape().len() implies image(
        before.shape()[i],
        #[trigger] after.shape()[i],
    ) by {
        if i < n {
            assert(before.shape()[i] == before.points[i]);
            assert(after.shape()[i] == after.points[i]);
        } else if i == n {
            assert(before.shape()[i] == before.center);
            assert(after.shape()[i] == after.center);
        } else if i == n + 1 {
            assert(before.shape()[i] == before.head);
            assert(after.shape()[i] == after.head);
        } else {
            assert(before.shape()[i] == before.right_wing_tip);
            assert(after.shape()[i] == after.right_wing_tip);
        }
    }
}

/// A motion keeps the shape of the body as well as its map keeps distances.
///
/// Let `dist` be any measure between two points and `close` any relation
/// between two measures: equality, or being within a tolerance. If the
/// distance between images of two points is always close to the distance
/// between the points, then after the body was carried by such images the
/// distance between any two points of its shape (points of the mesh,
/// center, nose, wing tip) is close to what it was. For a motion by a map
/// `f`, as `Body::transform` makes it, `image(p, q)` is `f.ensures((p,), q)`.
pub proof fn lemma_motion_keeps_shape<P, D, U: Fn(P, P, P) -> P>(
    before: Pose<P>,
    after: Pose<P>,
    image: spec_fn(P, P) -> bool,
    up_of: &U,
    dist: spec_fn(P, P) -> D,
    close: spec_fn(D, D) -> bool,
)
    requires
        before.carried_to(after, image, up_of),
        forall|a: P, b: P, c: P, d: P|
            #[trigger] image(a, c) && #[trigger] image(b, d) ==> close(dist(a, b), dist(c, d)),
    ensures
        after.shape().len() == before.shape().len(),
        forall|i: int, j: int|
            0 <= i < before.shape().len() && 0 <= j < before.shape().len() ==> close(
                dist(before.shape()[i], before.shape()[j]),
                dist(#[trigger] after.shape()[i], #[trigger] after.shape()[j]),
            ),
{
    lemma_shape_carried(before, after, image, up_of);
}

/// A motion leaves the body where it is as well as its map leaves points
/// where they are.
///
/// Let `near` be any relation between two points: equality, or being within
/// a tolerance. If an image of a point is always near the point, then after
/// the body was carried by such images every point of its shape is near
/// where it was. Indices and velocities are the same after any motion.
pub proof fn lemma_motion_keeps_place<P, U: Fn(P, P, P) -> P>(
    before: Pose<P>,
    after: Pose<P>,
    image: spec_fn(P, P) -> bool,
    up_of: &U,
    near: spec_fn(P, P) -> bool,
)
    requires
        before.carried_to(after, image, up_of),
        forall|p: P, q: P| #[trigger] image(p, q) ==> near(p, q),
    ensures
        after.shape().len() == before.shape().len(),
        forall|i: int|
            0 <= i < before.shape().len() ==> near(before.shape()[i], #[trigger] after.shape()[i]),
        after.indices == before.indices,
        after.velocity == before.velocity,
        after.angular_velocity == before.angular_velocity,
{
    lemma_shape_carried(before, after, image, up_of);
}

/// A rotation by three turns keeps the shape of the body as well as three
/// steps of closeness allow.
///
/// Let every turn keep distances `close`: whatever the axis, the angle and
/// the center, the distance between what `turn` makes of two points is close
/// to the distance between the points. Let `wide` hold of two measures
/// whenever three steps of `close` lead from one to the other (three times
/// the tolerance, where `close` is a tolerance). Then after the three turns
/// of `Body::rotate_by` the distance between any two points of the body's
/// shape is `wide` of what it was.
pub proof fn lemma_rotation_keeps_shape<
    P,
    S,
    D,
    A: Fn(Axis, P, P, P) -> P,
    T: Fn(P, S, P, P) -> P,
    U: Fn(P, P, P) -> P,
>(
    before: Pose<P>,
    rolled: Pose<P>,
    yawed: Pose<P>,
    after: Pose<P>,
    roll: S,
    yaw: S,
    pitch: S,
    axis_of: &A,
    turn: &T,
    up_of: &U,
    dist: spec_fn(P, P) -> D,
    close: spec_fn(D, D) -> bool,
    wide: spec_fn(D, D) -> bool,
)
    requires
        before.turned_to(rolled, Axis::Forward, roll, axis_of, turn, up_of),
        rolled.turned_to(yawed, Axis::Up, yaw, axis_of, turn, up_of),
        yawed.turned_to(after, Axis::Right, pitch, axis_of, turn, up_of),
        forall|axis: P, angle: S, pivot: P, a: P, b: P, c: P, d: P|
            #[trigger] turn.ensures((axis, angle, pivot, a), c) && #[trigger] turn.ensures(
                (axis, angle, pivot, b),
                d,
            ) ==> close(dist(a, b), dist(c, d)),
        forall|x: D, y: D, z: D, w: D|
            #[trigger] close(x, y) && #[trigger] close(y, z) && #[trigger] close(z, w) ==> wide(
                x,
                w,
            ),
    ensures
        after.shape().len() == before.shape().len(),
        forall|i: int, j: int|
            0 <= i < before.shape().len() && 0 <= j < before.shape().len() ==> wide(
                dist(before.shape()[i], before.shape()[j]),
                dist(#[trigger] after.shape()[i], #[trigger] after.shape()[j]),
            ),
{
    lemma_turn_keeps_shape(before, rolled, Axis::Forward, roll, axis_of, turn, up_of, dist, close);
    lemma_turn_keeps_shape(rolled, yawed, Axis::Up, yaw, axis_of, turn, up_of, dist, close);
    lemma_turn_keeps_shape(yawed, after, Axis::Right, pitch, axis_of, turn, up_of, dist, close);
    assert forall|i: int, j: int|
        0 <= i < before.shape().len() && 0 <= j < before.shape().len() implies wide(
        dist(before.shape()[i], before.shape()[j]),
        dist(#[trigger] after.shape()[i], #[trigger] after.shape()[j]),
    ) by {
        assert(close(
            dist(before.shape()[i], before.shape()[j]),
            dist(rolled.shape()[i], rolled.shape()[j]),
        ));
        assert(close(
            dist(rolled.shape()[i], rolled.shape()[j]),
            dist(yawed.shape()[i], yawed.shape()[j]),
        ));
        assert(close(
            dist(yawed.shape()[i], yawed.shape()[j]),
            dist(after.shape()[i], after.shape()[j]),
        ));
    }
}

/// One turn keeps the shape of the body as well as `turn` keeps distances.
proof fn lemma_turn_keeps_shape<
    P,
    S,
    D,
    A: Fn(Axis, P, P, P) -> P,
    T: Fn(P, S, P, P) -> P,
    U: Fn(P, P, P) -> P,
>(
    before: Pose<P>,
    after: Pose<P>,
    about: Axis,
    angle: S,
    axis_of: &A,
    turn: &T,
    up_of: &U,
    dist: spec_fn(P, P) -> D,
    close: spec_fn(D, D) -> bool,
)
    requires
        before.turned_to(after, about, angle, axis_of, turn, up_of),
        forall|axis: P, angle: S, pivot: P, a: P, b: P, c: P, d: P|
            #[trigger] turn.ensures((axis, angle, pivot, a), c) && #[trigger] turn.ensures(
                (axis, angle, pivot, b),
                d,
            ) ==> close(dist(a, b), dist(c, d)),
    ensures
        after.shape().len() == before.shape().len(),
        forall|i: int, j: int|
            0 <= i < before.shape().len() && 0 <= j < before.shape().len() ==> close(
                dist(before.shape()[i], before.shape()[j]),
                dist(#[trigger] after.shape()[i], #[trigger] after.shape()[j]),
            ),
{
    let axis = choose|axis: P|
        {
            &&& #[trigger] axis_of.ensures(
                (about, before.center, before.head, before.right_wing_tip),
                axis,
            )
            &&& before.rotated_to(after, axis, angle, before.center, turn, up_of)
        };
    let image = |p: P, q: P| turn.ensures((axis, angle, before.center, p), q);
    lemma_motion_keeps_shape(before, after, image, up_of, dist, close);
}

} // verus!
