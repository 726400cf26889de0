//! What the player asks for with the keys, and how the player's posture
//! follows: standing, crouching, jumping, and floating (god mode, entered by
//! pressing jump twice in quick succession).
use vstd::prelude::*;
use crate::config::{control_index, ConfigControl, CONTROL_COUNT};
use crate::log::LogData;

verus! {

/// The player's posture: on the ground or in the air, crouching or not, or
/// floating. (The surface normals that go with a posture are kept by the
/// physics, outside this library.)
#[derive(Clone, Copy, PartialEq, Eq, Structural, Debug)]
pub enum PostureKind {
    Grounded { crouching: bool },
    Airborne { crouching: bool },
    Floating,
}

impl PostureKind {
    /// Whether the player's collider has the crouching height: when
    /// crouching, and always when floating.
    pub fn crouch_height(&self) -> (r: bool)
        ensures
            r == match *self {
                PostureKind::Grounded { crouching } => crouching,
                PostureKind::Airborne { crouching } => crouching,
                PostureKind::Floating => true,
            },
    {
        match self {
            PostureKind::Grounded { crouching } => *crouching,
            PostureKind::Airborne { crouching } => *crouching,
            PostureKind::Floating => true,
        }
    }
}

/// What the player asks for: a jump, floating, crouching, and which
/// controls are held; and the tick of the last jump press, if there has been
/// one since the player entered the level.
#[derive(Clone, Copy, Debug)]
pub struct PlayerWish {
    pub jumping: bool,
    pub float: bool,
    pub crouching: bool,
    pub float_jump_tick: Option<u64>,
    pub control_held: [bool; 6],
}

/// The posture after a simulation step. `clear_sweep` says whether the
/// player could stand up (for a grounded player) or had room below (for an
/// airborne one): a crouching player keeps crouching while asked to or
/// while there is no room to stand.
pub open spec fn posture_next(old: PostureKind, wish: PlayerWish, clear_sweep: bool) -> PostureKind {
    match old {
        PostureKind::Grounded { crouching } => {
            let c = wish.crouching || (crouching && !clear_sweep);
            if wish.jumping {
                PostureKind::Airborne { crouching: c }
            } else {
                PostureKind::Grounded { crouching: c }
            }
        },
        PostureKind::Airborne { crouching } => {
            let c = wish.crouching || (crouching && !clear_sweep);
            if wish.float {
                PostureKind::Floating
            } else {
                PostureKind::Airborne { crouching: c }
            }
        },
        PostureKind::Floating => if wish.jumping {
            PostureKind::Airborne { crouching: true }
        } else {
            PostureKind::Floating
        },
    }
}

/// The ticks from `earlier` to `later`, counted modulo 2^64.
pub open spec fn ticks_since(later: u64, earlier: u64) -> int {
    if later >= earlier {
        later - earlier
    } else {
        later - earlier + 0x1_0000_0000_0000_0000
    }
}

/// The requests after a fresh press of jump at `tick`: a jump, and floating
/// when there was a previous press, at most `window` ticks before.
pub open spec fn after_jump_press(w: PlayerWish, tick: u64, window: u64) -> PlayerWish {
    PlayerWish {
        jumping: true,
        float: match w.float_jump_tick {
            Some(t) => ticks_since(tick, t) <= window,
            None => false,
        },
        float_jump_tick: Some(tick),
        ..w
    }
}

impl PlayerWish {
    /// Asking for nothing.
    pub fn new() -> (w: Self)
        ensures
            !w.jumping && !w.float && !w.crouching && w.float_jump_tick is None,
            forall|i: int| 0 <= i < CONTROL_COUNT ==> !#[trigger] w.control_held@[i],
    {
        PlayerWish {
            jumping: false,
            float: false,
            crouching: false,
            float_jump_tick: None,
            control_held: [false; 6],
        }
    }

    /// Forgets every request and every held control (the tick of the last
    /// jump press stays).
    pub fn clear(&mut self)
        ensures
            !final(self).jumping && !final(self).float && !final(self).crouching,
            final(self).float_jump_tick == old(self).float_jump_tick,
            forall|i: int| 0 <= i < CONTROL_COUNT ==> !#[trigger] final(self).control_held@[i],
    {
        self.jumping = false;
        self.float = false;
        self.crouching = false;
        self.control_held = [false; 6];
    }

    /// On entering a level: no floating, and no jump press yet.
    pub fn spawn_reset(&mut self)
        ensures
            !final(self).float,
            final(self).float_jump_tick is None,
            final(self).jumping == old(self).jumping,
            final(self).crouching == old(self).crouching,
            final(self).control_held == old(self).control_held,
    {
        self.float = false;
        self.float_jump_tick = None;
    }

    /// A key event for `control` (the control its key is bound to, if any).
    /// The movement controls and crouch are held while their key is down. A
    /// fresh press of jump asks for a jump, and for floating when the
    /// previous press was at most `repress_window_ticks` ticks before.
    pub fn key_event(
        &mut self,
        control: Option<ConfigControl>,
        pressed: bool,
        repeat: bool,
        current_tick: u64,
        repress_window_ticks: u64,
    )
        ensures
            match control {
                None => *final(self) == *old(self),
                Some(ConfigControl::Jump) => if pressed && !repeat {
                    *final(self) == after_jump_press(*old(self), current_tick, repress_window_ticks)
                } else {
                    *final(self) == *old(self)
                },
                Some(c) => final(self).control_held@ == old(self).control_held@.update(
                    control_index(c),
                    pressed,
                ) && final(self).jumping == old(self).jumping && final(self).float == old(self).float && final(self).crouching == old(self).crouching && final(self).float_jump_tick == old(self).float_jump_tick,
            },
    {
        let control = match control {
            Some(c) => c,
            None => return,
        };
        match control {
            ConfigControl::Jump => {
                if !(pressed && !repeat) {
                    return;
                }
                self.jumping = true;
                self.float = match self.float_jump_tick {
                    Some(t) => current_tick.wrapping_sub(t) <= repress_window_ticks,
                    None => false,
                };
                self.float_jump_tick = Some(current_tick);
            },
            _ => {
                let i = control.index();
                self.control_held[i] = pressed;
            },
        }
    }

    /// The direction asked for, relative to where the player looks, as
    /// `(x, z)` signs: forward is negative z, right is positive x; opposite
    /// controls cancel. Crouching is asked for while crouch is held.
    pub fn motion_update(&mut self) -> (d: (i8, i8))
        ensures
            final(self).crouching == old(self).control_held@[control_index(ConfigControl::Crouch)],
            final(self).jumping == old(self).jumping,
            final(self).float == old(self).float,
            final(self).float_jump_tick == old(self).float_jump_tick,
            final(self).control_held == old(self).control_held,
            d.0 == (if old(self).control_held@[control_index(ConfigControl::StrafeRight)] {
                1int
            } else {
                0int
            }) - (if old(self).control_held@[control_index(ConfigControl::StrafeLeft)] {
                1int
            } else {
                0int
            }),
            d.1 == (if old(self).control_held@[control_index(ConfigControl::Back)] {
                1int
            } else {
                0int
            }) - (if old(self).control_held@[control_index(ConfigControl::Forward)] {
                1int
            } else {
                0int
            }),
    {
        let mut x: i8 = 0;
        let mut z: i8 = 0;
        if self.control_held[ConfigControl::Forward.index()] {
            z = z - 1;
        }
        if self.control_held[ConfigControl::Back.index()] {
            z = z + 1;
        }
        if self.control_held[ConfigControl::StrafeRight.index()] {
            x = x + 1;
        }
        if self.control_held[ConfigControl::StrafeLeft.index()] {
            x = x - 1;
        }
        self.crouching = self.control_held[ConfigControl::Crouch.index()];
        (x, z)
    }

    /// The posture after a simulation step (see `posture_next`); the jump and
    /// float requests are used up.
    pub fn posture_update(&mut self, old_posture: PostureKind, clear_sweep: bool) -> (p: PostureKind)
        ensures
            p == posture_next(old_posture, *old(self), clear_sweep),
            !final(self).jumping && !final(self).float,
            final(self).crouching == old(self).crouching,
            final(self).float_jump_tick == old(self).float_jump_tick,
            final(self).control_held == old(self).control_held,
    {
        let next = match old_posture {
            PostureKind::Grounded { crouching } => {
                let c = self.crouching || (crouching && !clear_sweep);
                if self.jumping {
                    PostureKind::Airborne { crouching: c }
                } else {
                    PostureKind::Grounded { crouching: c }
                }
            },
            PostureKind::Airborne { crouching } => {
                let c = self.crouching || (crouching && !clear_sweep);
                if self.float {
                    PostureKind::Floating
                } else {
                    PostureKind::Airborne { crouching: c }
                }
            },
            PostureKind::Floating => {
                if self.jumping {
                    PostureKind::Airborne { crouching: true }
                } else {
                    PostureKind::Floating
                }
            },
        };
        self.jumping = false;
        self.float = false;
        next
    }
}

/// Double-tapping jump enters god mode: two fresh presses of jump at most
/// `window` ticks apart ask for floating, and an airborne player then floats;
/// the first press after entering a level never asks for floating.
pub proof fn law_double_jump_floats(w: PlayerWish, t1: u64, t2: u64, window: u64, crouching: bool, clear_sweep: bool)
    requires
        t1 <= t2,
        t2 - t1 <= window,
    ensures
        after_jump_press(after_jump_press(w, t1, window), t2, window).float,
        w.float_jump_tick is None ==> !after_jump_press(w, t1, window).float,
        posture_next(
            PostureKind::Airborne { crouching },
            after_jump_press(after_jump_press(w, t1, window), t2, window),
            clear_sweep,
        ) == PostureKind::Floating,
{
}

/// Floating is reached only from the air, on a second jump press inside the
/// window, and left only by jumping, which leaves the player airborne and
/// crouched.
pub proof fn law_floating_entered_and_left_by_jumping(
    old: PostureKind,
    wish: PlayerWish,
    clear_sweep: bool,
)
    ensures
        posture_next(old, wish, clear_sweep) == PostureKind::Floating && old != PostureKind::Floating
            ==> old is Airborne && wish.float,
        old == PostureKind::Floating && posture_next(old, wish, clear_sweep) != PostureKind::Floating
            ==> wish.jumping && posture_next(old, wish, clear_sweep) == (PostureKind::Airborne {
            crouching: true,
        }),
        old is Grounded && !wish.jumping ==> posture_next(old, wish, clear_sweep) is Grounded,
{
}

/// Jumping takes a grounded player off the ground: after a step in which a
/// jump was asked for, the player is airborne, crouching exactly when asked
/// to or when there was no room to stand up; without a jump, the player
/// stays on the ground. So a fresh press of jump, whatever came before,
/// makes a grounded player take off.
pub proof fn law_jump_takes_off(
    crouching: bool,
    wish: PlayerWish,
    clear_sweep: bool,
    earlier: PlayerWish,
    tick: u64,
    window: u64,
)
    ensures
        wish.jumping ==> posture_next(PostureKind::Grounded { crouching }, wish, clear_sweep)
            == (PostureKind::Airborne { crouching: wish.crouching || (crouching && !clear_sweep) }),
        !wish.jumping ==> posture_next(PostureKind::Grounded { crouching }, wish, clear_sweep)
            == (PostureKind::Grounded { crouching: wish.crouching || (crouching && !clear_sweep) }),
        posture_next(
            PostureKind::Grounded { crouching },
            after_jump_press(earlier, tick, window),
            clear_sweep,
        ) is Airborne,
        after_jump_press(earlier, tick, window).jumping,
        !wish.float ==> posture_next(PostureKind::Airborne { crouching }, wish, clear_sweep)
            == (PostureKind::Airborne { crouching: wish.crouching || (crouching && !clear_sweep) }),
{
}

/// What the music does when the player arrives in a level: the level's
/// track fades in where it has one, else the music fades out.
#[derive(Clone, Copy, PartialEq, Eq, Structural, Debug)]
pub enum TrackChange {
    FadeIn,
    FadeOut,
}

/// The music on arriving in a level with or without a track.
pub fn track_change(has_track: bool) -> (r: TrackChange)
    ensures
        r == (if has_track { TrackChange::FadeIn } else { TrackChange::FadeOut }),
{
    if has_track {
        TrackChange::FadeIn
    } else {
        TrackChange::FadeOut
    }
}

/// What passing through a portal into another level changes besides the
/// player's place: the music, and the log's note of the level entered.
#[derive(Debug)]
pub struct PortalArrival {
    pub track: TrackChange,
    pub log: LogData,
}

/// After the player passes through the portal named `portal_name` from the
/// level at `from_url` to the one at `target_url` (named `level_name`, with a
/// track or not): nothing more where the portal leads into the same level;
/// else the new level's music, and a log entry naming the level and portal.
pub fn portal_arrival(
    from_url: &String,
    target_url: &String,
    level_name: &str,
    portal_name: &str,
    has_track: bool,
) -> (r: Option<PortalArrival>)
    ensures
        r is None <==> from_url@ == target_url@,
        r matches Some(a) ==> {
            &&& a.track == (if has_track { TrackChange::FadeIn } else { TrackChange::FadeOut })
            &&& a.log matches LogData::Entered { name, portal_name: Some(p) } && name@ == level_name@
                && p@ == portal_name@
        },
{
    if *from_url == *target_url {
        None
    } else {
        Some(PortalArrival {
            track: track_change(has_track),
            log: LogData::Entered {
                name: level_name.to_owned(),
                portal_name: Some(portal_name.to_owned()),
            },
        })
    }
}

} // verus!
