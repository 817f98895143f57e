//! The overlay that reports the camera's field of view and aspect ratio.
//!
//! Once per frame the engine reads the screen size and, where a camera is
//! tagged for display, that camera's projection. The readings arrive here
//! as whole numbers of hundredths — the overlay shows two decimal places,
//! so hundredths carry exactly what it renders — and this module decides
//! which overlay elements change and to what text.

use vstd::prelude::*;
use vstd::string::StringExecFns;

use crate::decimal::format_hundredths;
use crate::decimal::hundredths_text;

verus! {

/// The tag that marks the camera whose field of view the overlay reports.
#[derive(Clone, Copy, Default)]
pub struct ShowFov;

/// A tagged camera's readings, each in hundredths. The horizontal field
/// of view is the vertical one scaled by the aspect ratio; the scaling is
/// done where the readings are taken, so it arrives here as a value of
/// its own.
#[derive(Clone, Copy)]
pub struct CameraFov {
    /// The vertical field of view, in hundredths of a radian.
    pub fovy: i64,
    /// The width-to-height ratio of the projection, in hundredths.
    pub aspect: i64,
    /// The horizontal field of view, in hundredths of a radian.
    pub fovx: i64,
}

/// One change to the overlay: the element to change and its new text.
pub struct UiUpdate<E> {
    /// The overlay element, named by whatever the engine uses to address
    /// its UI elements.
    pub target: E,
    /// The new text of that element.
    pub text: String,
}

/// The text that reports the screen's aspect ratio.
pub open spec fn screen_aspect_text(hundredths: int) -> Seq<char> {
    "Screen Aspect Ratio: "@ + hundredths_text(hundredths)
}

/// The text that reports the tagged camera's aspect ratio.
pub open spec fn camera_aspect_text(hundredths: int) -> Seq<char> {
    "Camera Aspect Ratio: "@ + hundredths_text(hundredths)
}

/// The text that reports the tagged camera's field of view, horizontal
/// then vertical.
pub open spec fn camera_fov_text(fovx: int, fovy: int) -> Seq<char> {
    "Camera Fov: ("@ + hundredths_text(fovx) + ", "@ + hundredths_text(fovy) + ")"@
}

/// The label that reports the screen's aspect ratio.
pub fn screen_aspect_label(hundredths: i64) -> (r: String)
    requires
        hundredths > i64::MIN,
    ensures
        r@ == screen_aspect_text(hundredths as int),
{
    let mut s = "Screen Aspect Ratio: ".to_owned();
    let value = format_hundredths(hundredths);
    s.append(value.as_str());
    s
}

/// The label that reports the tagged camera's aspect ratio.
pub fn camera_aspect_label(hundredths: i64) -> (r: String)
    requires
        hundredths > i64::MIN,
    ensures
        r@ == camera_aspect_text(hundredths as int),
{
    let mut s = "Camera Aspect Ratio: ".to_owned();
    let value = format_hundredths(hundredths);
    s.append(value.as_str());
    s
}

/// The label that reports the tagged camera's field of view, horizontal
/// then vertical.
pub fn camera_fov_label(fovx: i64, fovy: i64) -> (r: String)
    requires
        fovx > i64::MIN,
        fovy > i64::MIN,
    ensures
        r@ == camera_fov_text(fovx as int, fovy as int),
{
    let mut s = "Camera Fov: (".to_owned();
    let horizontal = format_hundredths(fovx);
    s.append(horizontal.as_str());
    s.append(", ");
    let vertical = format_hundredths(fovy);
    s.append(vertical.as_str());
    s.append(")");
    proof {
        assert(s@ =~= camera_fov_text(fovx as int, fovy as int));
    }
    s
}

/// The target and text of each update, in order. The updates themselves
/// hold owned strings, which a specification cannot build, so contracts
/// compare this view of them instead.
pub open spec fn update_views<E>(updates: Seq<UiUpdate<E>>) -> Seq<(E, Seq<char>)> {
    updates.map(|i: int, u: UiUpdate<E>| (u.target, u.text@))
}

/// An update of one element where the overlay has it, and none where it
/// does not.
pub open spec fn opt_update<E>(target: Option<E>, text: Seq<char>) -> Seq<(E, Seq<char>)> {
    match target {
        Some(e) => seq![(e, text)],
        None => Seq::empty(),
    }
}

/// The updates one refresh makes: the screen's aspect ratio wherever the
/// overlay shows it, and, where a tagged camera was read, its aspect ratio
/// and field of view likewise. An element the overlay does not have is
/// skipped, and a missing camera leaves the camera lines alone.
pub open spec fn refresh_updates<E>(
    screen_aspect: int,
    screen_aspect_ui: Option<E>,
    camera: Option<CameraFov>,
    camera_aspect_ui: Option<E>,
    camera_fov_ui: Option<E>,
) -> Seq<(E, Seq<char>)> {
    opt_update(screen_aspect_ui, screen_aspect_text(screen_aspect)) + (match camera {
        Some(c) => opt_update(camera_aspect_ui, camera_aspect_text(c.aspect as int)) + opt_update(
            camera_fov_ui,
            camera_fov_text(c.fovx as int, c.fovy as int),
        ),
        None => Seq::empty(),
    })
}

/// Append an update of the element where the overlay has one, and nothing
/// where it does not.
fn push_update<E>(updates: &mut Vec<UiUpdate<E>>, target: Option<E>, text: String)
    ensures
        update_views(final(updates)@) == update_views(old(updates)@) + opt_update(
            target,
            text@,
        ),
{
    let ghost previous = updates@;
    match target {
        Some(e) => {
            updates.push(UiUpdate { target: e, text });
            proof {
                assert(update_views(updates@) =~= update_views(previous) + opt_update(
                    Some(e),
                    text@,
                ));
            }
        },
        None => {
            proof {
                assert(update_views(updates@) =~= update_views(previous) + opt_update(
                    None::<E>,
                    text@,
                ));
            }
        },
    }
}

/// The per-frame refresh of the overlay.
pub struct ShowFovSystem;

impl ShowFovSystem {
    /// One refresh: given the frame's readings and the overlay elements
    /// that were found, the updates to apply, in order. The screen line
    /// changes wherever the overlay has it; the camera lines change only
    /// where a tagged camera was read and the overlay has them.
    pub fn run<E>(
        &self,
        screen_aspect: i64,
        screen_aspect_ui: Option<E>,
        camera: Option<CameraFov>,
        camera_aspect_ui: Option<E>,
        camera_fov_ui: Option<E>,
    ) -> (updates: Vec<UiUpdate<E>>)
        requires
            screen_aspect > i64::MIN,
            camera matches Some(c) ==> c.fovy > i64::MIN && c.aspect > i64::MIN && c.fovx
                > i64::MIN,
        ensures
            update_views(updates@) == refresh_updates(
                screen_aspect as int,
                screen_aspect_ui,
                camera,
                camera_aspect_ui,
                camera_fov_ui,
            ),
    {
        let mut updates: Vec<UiUpdate<E>> = Vec::new();
        push_update(&mut updates, screen_aspect_ui, screen_aspect_label(screen_aspect));
        match camera {
            Some(c) => {
                push_update(&mut updates, camera_aspect_ui, camera_aspect_label(c.aspect));
                push_update(&mut updates, camera_fov_ui, camera_fov_label(c.fovx, c.fovy));
            },
            None => {},
        }
        proof {
            assert(update_views(updates@) =~= refresh_updates(
                screen_aspect as int,
                screen_aspect_ui,
                camera,
                camera_aspect_ui,
                camera_fov_ui,
            ));
        }
        updates
    }
}

} // verus!
