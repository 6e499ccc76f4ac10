//! The camera: its field of view and position, and the parameters from which
//! the view and projection matrices are built.
//!
//! The matrices themselves are floating-point work done by the renderer; this
//! module decides what they are built from and when they change. The view is
//! a right-handed look-at from the position towards the position moved by
//! `LOOK_OFFSET` on every axis, with the world Y axis as up. The projection is
//! a right-handed perspective from the field of view in degrees and the aspect
//! ratio `aspect_width / aspect_height` of the display surface.

use vstd::prelude::*;

verus! {

/// The look-at target lies this far from the position on each axis.
pub const LOOK_OFFSET: i64 = -3;

/// Field of view of a new camera, in degrees.
pub const DEFAULT_FOV: u32 = 90;

/// Coordinate of a new camera's position on each axis.
pub const DEFAULT_COORD: i32 = 3;

#[derive(Clone, Copy, Debug, PartialEq, Eq, Structural)]
pub enum CameraError {
    /// The display surface reported a zero width or height.
    ConfigurationError,
    /// The field of view is not strictly between 0 and 180 degrees.
    InvalidArgument,
}

/// A camera position in world units.
#[derive(Clone, Copy, Debug, PartialEq, Eq, Structural)]
pub struct Position {
    pub x: i32,
    pub y: i32,
    pub z: i32,
}

/// A point or direction of the look-at transform.
#[derive(Clone, Copy, Debug, PartialEq, Eq, Structural)]
pub struct Point {
    pub x: i64,
    pub y: i64,
    pub z: i64,
}

/// What the view matrix is built from.
#[derive(Clone, Copy, Debug, PartialEq, Eq, Structural)]
pub struct ViewParams {
    pub eye: Point,
    pub target: Point,
    pub up: Point,
}

/// What the projection matrix is built from.
#[derive(Clone, Copy, Debug, PartialEq, Eq, Structural)]
pub struct ProjectionParams {
    pub fov_degrees: u32,
    pub aspect_width: u32,
    pub aspect_height: u32,
}

pub open spec fn valid_fov(fov: u32) -> bool {
    0 < fov < 180
}

/// A display surface of this size has a usable aspect ratio.
pub open spec fn valid_dimensions(dimensions: (u32, u32)) -> bool {
    dimensions.0 > 0 && dimensions.1 > 0
}

/// The projection's aspect ratio equals `width / height` of `dimensions`.
pub open spec fn same_aspect(p: ProjectionParams, dimensions: (u32, u32)) -> bool {
    p.aspect_width * dimensions.1 == dimensions.0 * p.aspect_height
}

pub open spec fn projection_of(fov: u32, dimensions: (u32, u32)) -> ProjectionParams {
    ProjectionParams { fov_degrees: fov, aspect_width: dimensions.0, aspect_height: dimensions.1 }
}

pub open spec fn look_at(p: Position) -> ViewParams {
    ViewParams {
        eye: Point { x: p.x as i64, y: p.y as i64, z: p.z as i64 },
        target: Point {
            x: (p.x + LOOK_OFFSET) as i64,
            y: (p.y + LOOK_OFFSET) as i64,
            z: (p.z + LOOK_OFFSET) as i64,
        },
        up: Point { x: 0, y: 1, z: 0 },
    }
}

pub open spec fn default_position() -> Position {
    Position { x: DEFAULT_COORD, y: DEFAULT_COORD, z: DEFAULT_COORD }
}

/// A camera bound to no surface: each call that needs the surface's size is
/// handed its current width and height. `projection` keeps the size it was
/// last rebuilt from, which stands for the surface's aspect ratio.
pub struct Camera {
    fov: u32,
    position: Position,
    view: ViewParams,
    projection: ProjectionParams,
}

impl Camera {
    pub closed spec fn fov_spec(&self) -> u32 {
        self.fov
    }

    pub closed spec fn position_spec(&self) -> Position {
        self.position
    }

    pub closed spec fn view_spec(&self) -> ViewParams {
        self.view
    }

    pub closed spec fn projection_spec(&self) -> ProjectionParams {
        self.projection
    }

    /// The view follows the position, and the projection the field of view
    /// and a usable aspect ratio.
    pub open spec fn wf(&self) -> bool {
        &&& valid_fov(self.fov_spec())
        &&& self.view_spec() == look_at(self.position_spec())
        &&& self.projection_spec().fov_degrees == self.fov_spec()
        &&& self.projection_spec().aspect_width > 0
        &&& self.projection_spec().aspect_height > 0
    }
}

/// `after` is the camera left by `set_fov(fov, dimensions)` on `before`: the
/// projection is rebuilt unless neither the field of view nor the aspect
/// ratio changed.
pub open spec fn fov_updated(before: Camera, fov: u32, dimensions: (u32, u32), after: Camera) -> bool {
    &&& after.fov_spec() == fov
    &&& after.position_spec() == before.position_spec()
    &&& after.view_spec() == before.view_spec()
    &&& after.projection_spec() == if fov == before.fov_spec() && same_aspect(
        before.projection_spec(),
        dimensions,
    ) {
        before.projection_spec()
    } else {
        projection_of(fov, dimensions)
    }
}

/// `after` is the camera left by `set_position(p)` on `before`.
pub open spec fn position_updated(before: Camera, p: Position, after: Camera) -> bool {
    &&& after.position_spec() == p
    &&& after.fov_spec() == before.fov_spec()
    &&& after.projection_spec() == before.projection_spec()
    &&& after.view_spec() == look_at(p)
}

fn look_at_params(p: Position) -> (r: ViewParams)
    ensures
        r == look_at(p),
{
    let x = p.x as i64;
    let y = p.y as i64;
    let z = p.z as i64;
    ViewParams {
        eye: Point { x, y, z },
        target: Point { x: x + LOOK_OFFSET, y: y + LOOK_OFFSET, z: z + LOOK_OFFSET },
        up: Point { x: 0, y: 1, z: 0 },
    }
}

fn aspect_matches(p: &ProjectionParams, dimensions: (u32, u32)) -> (r: bool)
    ensures
        r == same_aspect(*p, dimensions),
{
    let a = p.aspect_width as u64;
    let b = dimensions.1 as u64;
    let c = dimensions.0 as u64;
    let d = p.aspect_height as u64;
    assert(a * b <= u32::MAX * u32::MAX) by (nonlinear_arith)
        requires
            a <= u32::MAX,
            b <= u32::MAX,
    ;
    assert(c * d <= u32::MAX * u32::MAX) by (nonlinear_arith)
        requires
            c <= u32::MAX,
            d <= u32::MAX,
    ;
    a * b == c * d
}

impl Camera {
    /// A camera at `(3, 3, 3)` with a field of view of 90 degrees, for a
    /// display surface of the given width and height.
    pub fn new(dimensions: (u32, u32)) -> (r: Result<Camera, CameraError>)
        ensures
            match r {
                Ok(c) => {
                    &&& valid_dimensions(dimensions)
                    &&& c.wf()
                    &&& c.fov_spec() == DEFAULT_FOV
                    &&& c.position_spec() == default_position()
                    &&& c.view_spec() == look_at(default_position())
                    &&& c.projection_spec() == projection_of(DEFAULT_FOV, dimensions)
                },
                Err(e) => !valid_dimensions(dimensions) && e == CameraError::ConfigurationError,
            },
    {
        if dimensions.0 == 0 || dimensions.1 == 0 {
            return Err(CameraError::ConfigurationError);
        }
        let position = Position { x: DEFAULT_COORD, y: DEFAULT_COORD, z: DEFAULT_COORD };
        let camera = Camera {
            fov: DEFAULT_FOV,
            position,
            view: look_at_params(position),
            projection: ProjectionParams {
                fov_degrees: DEFAULT_FOV,
                aspect_width: dimensions.0,
                aspect_height: dimensions.1,
            },
        };
        Ok(camera)
    }

    pub fn fov(&self) -> (r: u32)
        ensures
            r == self.fov_spec(),
    {
        self.fov
    }

    pub fn position(&self) -> (r: Position)
        ensures
            r == self.position_spec(),
    {
        self.position
    }

    pub fn view_matrix(&self) -> (r: ViewParams)
        ensures
            r == self.view_spec(),
    {
        self.view
    }

    pub fn proj_matrix(&self) -> (r: ProjectionParams)
        ensures
            r == self.projection_spec(),
    {
        self.projection
    }

    /// Rebuilds the view from the current position; nothing else changes.
    pub fn update_view(&mut self)
        ensures
            final(self).view_spec() == look_at(old(self).position_spec()),
            final(self).position_spec() == old(self).position_spec(),
            final(self).fov_spec() == old(self).fov_spec(),
            final(self).projection_spec() == old(self).projection_spec(),
    {
        self.view = look_at_params(self.position);
    }

    /// Moves the camera and rebuilds its view.
    pub fn set_position(&mut self, p: Position)
        requires
            old(self).wf(),
        ensures
            final(self).wf(),
            position_updated(*old(self), p, *final(self)),
    {
        self.position = p;
        self.update_view();
    }

    /// Sets the field of view, in degrees, for a display surface now of the
    /// given width and height. Refuses a field of view outside `(0, 180)`,
    /// then a surface with no area, and then leaves the camera unchanged.
    pub fn set_fov(&mut self, fov: u32, dimensions: (u32, u32)) -> (r: Result<(), CameraError>)
        requires
            old(self).wf(),
        ensures
            final(self).wf(),
            match r {
                Ok(()) => {
                    &&& valid_fov(fov)
                    &&& valid_dimensions(dimensions)
                    &&& fov_updated(*old(self), fov, dimensions, *final(self))
                },
                Err(e) => {
                    &&& *final(self) == *old(self)
                    &&& !valid_fov(fov) ==> e == CameraError::InvalidArgument
                    &&& valid_fov(fov) ==> !valid_dimensions(dimensions) && e
                        == CameraError::ConfigurationError
                },
            },
    {
        if fov == 0 || fov >= 180 {
            return Err(CameraError::InvalidArgument);
        }
        if dimensions.0 == 0 || dimensions.1 == 0 {
            return Err(CameraError::ConfigurationError);
        }
        let unchanged = fov == self.fov && aspect_matches(&self.projection, dimensions);
        self.fov = fov;
        if !unchanged {
            self.projection = ProjectionParams {
                fov_degrees: fov,
                aspect_width: dimensions.0,
                aspect_height: dimensions.1,
            };
        }
        Ok(())
    }
}

/// The projection changes exactly when the field of view or the aspect ratio
/// of the display surface does.
pub proof fn lemma_projection_follows_fov_and_aspect(
    before: Camera,
    fov: u32,
    dimensions: (u32, u32),
    after: Camera,
)
    requires
        before.wf(),
        valid_fov(fov),
        valid_dimensions(dimensions),
        fov_updated(before, fov, dimensions, after),
    ensures
        after.projection_spec() == before.projection_spec() <==> (fov == before.fov_spec()
            && same_aspect(before.projection_spec(), dimensions)),
{
    let p = before.projection_spec();
    if after.projection_spec() == p && !(fov == before.fov_spec() && same_aspect(p, dimensions)) {
        assert(projection_of(fov, dimensions) == p);
        assert(same_aspect(p, dimensions)) by (nonlinear_arith)
            requires
                p.aspect_width == dimensions.0,
                p.aspect_height == dimensions.1,
                same_aspect(p, dimensions) == (p.aspect_width * dimensions.1 == dimensions.0
                    * p.aspect_height),
        ;
    }
}

/// Moving the camera leaves the projection as it was.
pub proof fn lemma_projection_ignores_position(before: Camera, p: Position, after: Camera)
    requires
        position_updated(before, p, after),
    ensures
        after.projection_spec() == before.projection_spec(),
{
}

/// The view changes exactly when the position does.
pub proof fn lemma_view_follows_position(before: Camera, p: Position, after: Camera)
    requires
        before.wf(),
        position_updated(before, p, after),
    ensures
        after.view_spec() == before.view_spec() <==> p == before.position_spec(),
{
    let q = before.position_spec();
    if after.view_spec() == before.view_spec() {
        assert(look_at(p).eye == look_at(q).eye);
    }
}

/// Changing the field of view leaves the view as it was.
pub proof fn lemma_view_ignores_fov(before: Camera, fov: u32, dimensions: (u32, u32), after: Camera)
    requires
        fov_updated(before, fov, dimensions, after),
    ensures
        after.view_spec() == before.view_spec(),
{
}

} // verus!
