//! The overlay manager: at most one named embedded browser surface inside
//! the host window, with create/replace/destroy semantics that never leave
//! two live surfaces.
//!
//! The manager models the surface — its navigation target, rectangle and
//! visibility — and decides every operation; creating, moving, showing and
//! destroying the real surface is the host's work, whose outcome the caller
//! hands in. Coordinates are whole logical pixels.

use vstd::prelude::*;

use crate::urlcheck::is_valid_url;
use crate::urlcheck::url_well_formed;
use crate::LifecycleError;

verus! {

/// A live embedded surface as the manager models it.
pub struct Surface {
    pub url: String,
    pub x: i64,
    pub y: i64,
    pub width: i64,
    pub height: i64,
    pub visible: bool,
}

/// The mathematical shape of a surface.
pub ghost struct SurfaceView {
    pub url: Seq<char>,
    pub x: int,
    pub y: int,
    pub width: int,
    pub height: int,
    pub visible: bool,
}

impl View for Surface {
    type V = SurfaceView;

    open spec fn view(&self) -> SurfaceView {
        SurfaceView {
            url: self.url@,
            x: self.x as int,
            y: self.y as int,
            width: self.width as int,
            height: self.height as int,
            visible: self.visible,
        }
    }
}

/// The single-surface registry. Its view is the surface the host window
/// holds under the manager's identifier, or `None` where none exists.
pub struct OverlayManager {
    surface: Option<Surface>,
}

impl View for OverlayManager {
    type V = Option<SurfaceView>;

    closed spec fn view(&self) -> Option<SurfaceView> {
        match self.surface {
            Some(ref s) => Some(s@),
            None => None,
        }
    }
}

pub open spec fn spec_open(
    s: Option<SurfaceView>,
    url: Seq<char>,
    x: int,
    y: int,
    width: int,
    height: int,
    created: bool,
) -> (Option<SurfaceView>, Result<(), LifecycleError>) {
    if !is_valid_url(url) {
        (None, Err(LifecycleError::InvalidUrl))
    } else if !created {
        (None, Err(LifecycleError::SurfaceCreationFailure))
    } else {
        (Some(SurfaceView { url, x, y, width, height, visible: true }), Ok(()))
    }
}

pub open spec fn spec_navigate(s: Option<SurfaceView>, url: Seq<char>) -> (
    Option<SurfaceView>,
    Result<(), LifecycleError>,
) {
    match s {
        None => (None, Ok(())),
        Some(v) => if !is_valid_url(url) {
            (Some(v), Err(LifecycleError::InvalidUrl))
        } else {
            (Some(SurfaceView { url, ..v }), Ok(()))
        },
    }
}

pub open spec fn spec_reposition(
    s: Option<SurfaceView>,
    x: int,
    y: int,
    width: int,
    height: int,
    moved: bool,
    resized: bool,
) -> (Option<SurfaceView>, Result<(), LifecycleError>) {
    match s {
        None => (None, Ok(())),
        Some(v) => if !moved {
            (Some(v), Err(LifecycleError::SurfacePositionFailure))
        } else if !resized {
            (Some(SurfaceView { x, y, ..v }), Err(LifecycleError::SurfacePositionFailure))
        } else {
            (Some(SurfaceView { x, y, width, height, ..v }), Ok(()))
        },
    }
}

pub open spec fn spec_set_visible(s: Option<SurfaceView>, visible: bool, shown: bool) -> (
    Option<SurfaceView>,
    Result<(), LifecycleError>,
) {
    match s {
        None => (None, Ok(())),
        Some(v) => if shown {
            (Some(SurfaceView { visible, ..v }), Ok(()))
        } else {
            (Some(v), Err(LifecycleError::SurfaceVisibilityFailure))
        },
    }
}

/// Opening on top of anything leaves exactly one surface, the new one:
/// whatever an earlier open did, a second open to a well-formed target
/// that the host creates yields the one surface navigated to the second
/// target at the second rectangle — never two surfaces side by side, the
/// model holding at most one by construction.
pub proof fn lemma_reopen_replaces(
    s: Option<SurfaceView>,
    url1: Seq<char>,
    x1: int,
    y1: int,
    w1: int,
    h1: int,
    created1: bool,
    url2: Seq<char>,
    x2: int,
    y2: int,
    w2: int,
    h2: int,
)
    requires
        is_valid_url(url2),
    ensures
        ({
            let (s1, _) = spec_open(s, url1, x1, y1, w1, h1, created1);
            let (s2, outcome) = spec_open(s1, url2, x2, y2, w2, h2, true);
            s2 == Some(
                (SurfaceView { url: url2, x: x2, y: y2, width: w2, height: h2, visible: true }),
            ) && outcome == Ok::<(), LifecycleError>(())
        }),
{
}

/// Navigation and repositioning on a closed overlay are successful no-ops
/// that create no surface.
pub proof fn lemma_closed_overlay_noops(
    url: Seq<char>,
    x: int,
    y: int,
    width: int,
    height: int,
    moved: bool,
    resized: bool,
)
    ensures
        spec_navigate(None, url) == (None::<SurfaceView>, Ok::<(), LifecycleError>(())),
        spec_reposition(None, x, y, width, height, moved, resized) == (
            None::<SurfaceView>,
            Ok::<(), LifecycleError>(()),
        ),
{
}

/// Hiding and then showing an open surface keeps the overlay open and
/// loses no navigation state: the surface comes out with its target and
/// rectangle exactly as before, visible again, and both steps succeed.
pub proof fn lemma_hide_show_preserves(v: SurfaceView)
    ensures
        ({
            let (s1, r1) = spec_set_visible(Some(v), false, true);
            let (s2, r2) = spec_set_visible(s1, true, true);
            s2 == Some((SurfaceView { visible: true, ..v })) && r1 == Ok::<(), LifecycleError>(())
                && r2 == Ok::<(), LifecycleError>(())
        }),
{
}

impl OverlayManager {
    /// A manager with no surface: the overlay starts out closed.
    pub fn new() -> (r: Self)
        ensures
            r@ is None,
    {
        OverlayManager { surface: None }
    }

    /// Whether a surface with the manager's identifier currently exists.
    pub fn is_open(&self) -> (r: bool)
        ensures
            r == (self@ is Some),
    {
        self.surface.is_some()
    }

    /// Replaces whatever surface existed with one at the given rectangle,
    /// navigated to `url` and visible. The old surface is gone in every
    /// case; a malformed `url` is rejected as `InvalidUrl` before the host
    /// is asked to create anything, and `created` — the host's answer to
    /// the creation — decides between success and `SurfaceCreationFailure`.
    pub fn open(
        &mut self,
        url: String,
        x: i64,
        y: i64,
        width: i64,
        height: i64,
        created: bool,
    ) -> (r: Result<(), LifecycleError>)
        ensures
            (final(self)@, r) == spec_open(
                old(self)@,
                url@,
                x as int,
                y as int,
                width as int,
                height as int,
                created,
            ),
    {
        self.surface = None;
        if !url_well_formed(url.as_str()) {
            Err(LifecycleError::InvalidUrl)
        } else if !created {
            Err(LifecycleError::SurfaceCreationFailure)
        } else {
            self.surface = Some(Surface { url, x, y, width, height, visible: true });
            Ok(())
        }
    }

    /// Destroys the surface if one exists. Closing a never-opened or
    /// already-closed overlay is a successful no-op; the overlay is closed
    /// afterwards in every case.
    pub fn close(&mut self) -> (r: Result<(), LifecycleError>)
        ensures
            final(self)@ is None,
            r is Ok,
    {
        self.surface = None;
        Ok(())
    }

    /// Loads `url` into the existing surface in place. On a closed overlay
    /// this is a successful no-op that creates nothing; on an open one a
    /// malformed `url` is rejected as `InvalidUrl` and the surface keeps
    /// its prior target.
    pub fn navigate(&mut self, url: String) -> (r: Result<(), LifecycleError>)
        ensures
            (final(self)@, r) == spec_navigate(old(self)@, url@),
    {
        match &mut self.surface {
            None => Ok(()),
            Some(s) => {
                if !url_well_formed(url.as_str()) {
                    Err(LifecycleError::InvalidUrl)
                } else {
                    s.url = url;
                    Ok(())
                }
            },
        }
    }

    /// Moves, then resizes, the existing surface. On a closed overlay this
    /// is a successful no-op. `moved` and `resized` are the host's answers
    /// to the two updates, in order: a failed move reports
    /// `SurfacePositionFailure` with the rectangle unchanged, and a failed
    /// resize reports the same with only the position updated.
    pub fn reposition(
        &mut self,
        x: i64,
        y: i64,
        width: i64,
        height: i64,
        moved: bool,
        resized: bool,
    ) -> (r: Result<(), LifecycleError>)
        ensures
            (final(self)@, r) == spec_reposition(
                old(self)@,
                x as int,
                y as int,
                width as int,
                height as int,
                moved,
                resized,
            ),
    {
        match &mut self.surface {
            None => Ok(()),
            Some(s) => {
                if !moved {
                    Err(LifecycleError::SurfacePositionFailure)
                } else {
                    s.x = x;
                    s.y = y;
                    if !resized {
                        Err(LifecycleError::SurfacePositionFailure)
                    } else {
                        s.width = width;
                        s.height = height;
                        Ok(())
                    }
                }
            },
        }
    }

    /// Shows or hides the existing surface without destroying it: the
    /// surface, its navigation target and its rectangle survive. On a
    /// closed overlay this is a successful no-op; `shown` is the host's
    /// answer, and its refusal reports `SurfaceVisibilityFailure` with
    /// nothing changed.
    pub fn set_visible(&mut self, visible: bool, shown: bool) -> (r: Result<(), LifecycleError>)
        ensures
            (final(self)@, r) == spec_set_visible(old(self)@, visible, shown),
    {
        match &mut self.surface {
            None => Ok(()),
            Some(s) => {
                if shown {
                    s.visible = visible;
                    Ok(())
                } else {
                    Err(LifecycleError::SurfaceVisibilityFailure)
                }
            },
        }
    }

    /// The navigation target of the open surface, if any.
    pub fn current_url(&self) -> (r: Option<&String>)
        ensures
            match r {
                Some(u) => self@ matches Some(v) && v.url == u@,
                None => self@ is None,
            },
    {
        match &self.surface {
            Some(s) => Some(&s.url),
            None => None,
        }
    }

    /// Whether an open surface is currently shown; a closed overlay shows
    /// nothing.
    pub fn is_visible(&self) -> (r: bool)
        ensures
            r == (self@ matches Some(v) && v.visible),
    {
        match &self.surface {
            Some(s) => s.visible,
            None => false,
        }
    }
}

} // verus!
