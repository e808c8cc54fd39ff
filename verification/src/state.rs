//! The user-visible settings of the clicker and where they live on disk.
//!
//! [`GlobalState`] mirrors, field for field, the values that the settings
//! surface of the user interface holds; [`State`] is the shape in which those
//! values are persisted. The conversions between the two, and the resolution
//! of the settings-file path from the environment values handed in by the
//! embedding program, are the logic of this module. Reading and writing the
//! file itself, and reading the environment, stay with the embedding program.

use crate::autoclicker::ActivationRequest;
use vstd::prelude::*;
use vstd::string::StringExecFns;

verus! {

/// The persisted settings, one field per value the user can change. `delay`
/// is the click interval in milliseconds; `start_delay` and `duration` are
/// in seconds and only honoured when the matching `use_` flag is set.
#[derive(Clone, Copy, Debug, PartialEq, Eq, Structural)]
pub struct State {
    pub delay: u64,
    pub start_delay: u64,
    pub duration: u64,
    pub use_start_delay: bool,
    pub use_duration: bool,
    pub dark_mode: bool,
}

/// The same settings as the user interface holds them: the numeric values
/// are the signed integers of the interface toolkit's properties.
#[derive(Clone, Copy, Debug, PartialEq, Eq, Structural)]
pub struct GlobalState {
    pub delay: i32,
    pub start_delay: i32,
    pub duration: i32,
    pub use_start_delay: bool,
    pub use_duration: bool,
    pub dark_mode: bool,
}

impl State {
    /// Capture the interface values as a persistable [`State`]. The numeric
    /// properties can only hold meaningful settings when non-negative, so
    /// negative values are ruled out rather than converted.
    pub fn from_app(app: &GlobalState) -> (state: State)
        requires
            0 <= app.delay,
            0 <= app.start_delay,
            0 <= app.duration,
        ensures
            state == (State {
                delay: app.delay as u64,
                start_delay: app.start_delay as u64,
                duration: app.duration as u64,
                use_start_delay: app.use_start_delay,
                use_duration: app.use_duration,
                dark_mode: app.dark_mode,
            }),
    {
        State {
            delay: app.delay as u64,
            start_delay: app.start_delay as u64,
            duration: app.duration as u64,
            use_start_delay: app.use_start_delay,
            use_duration: app.use_duration,
            dark_mode: app.dark_mode,
        }
    }

    /// Write this state back into the interface values, narrowing each
    /// numeric field to the interface's signed integers the way the `as`
    /// cast does.
    pub fn update_app(&self, app: &mut GlobalState)
        ensures
            *final(app) == (GlobalState {
                delay: self.delay as i32,
                start_delay: self.start_delay as i32,
                duration: self.duration as i32,
                use_start_delay: self.use_start_delay,
                use_duration: self.use_duration,
                dark_mode: self.dark_mode,
            }),
    {
        app.delay = self.delay as i32;
        app.start_delay = self.start_delay as i32;
        app.duration = self.duration as i32;
        app.use_start_delay = self.use_start_delay;
        app.use_duration = self.use_duration;
        app.dark_mode = self.dark_mode;
    }
}

impl GlobalState {
    /// The activation request that a press of the start control asks for:
    /// the current click interval, and the start delay and run duration only
    /// when their checkboxes are ticked. Values behind an unticked checkbox
    /// are ignored, so only the values that are read need to be
    /// non-negative.
    pub fn activation_request(&self) -> (request: ActivationRequest)
        requires
            0 <= self.delay,
            self.use_start_delay ==> 0 <= self.start_delay,
            self.use_duration ==> 0 <= self.duration,
        ensures
            request == (ActivationRequest {
                interval_ms: self.delay as u64,
                start_delay: if self.use_start_delay {
                    Some(self.start_delay as u64)
                } else {
                    None
                },
                duration: if self.use_duration {
                    Some(self.duration as u64)
                } else {
                    None
                },
            }),
    {
        ActivationRequest {
            interval_ms: self.delay as u64,
            start_delay: if self.use_start_delay {
                Some(self.start_delay as u64)
            } else {
                None
            },
            duration: if self.use_duration {
                Some(self.duration as u64)
            } else {
                None
            },
        }
    }
}

/// The characters of an optional directory handed in by the embedding
/// program (`None` when the environment variable is unset).
pub open spec fn view_of(dir: Option<String>) -> Option<Seq<char>> {
    match dir {
        Some(s) => Some(s@),
        None => None,
    }
}

/// The base directory for state files when the dedicated state-home
/// variable is unset or empty: the state subdirectory under the user's home
/// directory, or under the working directory when no home is known.
pub open spec fn spec_home_fallback_dir(home: Option<Seq<char>>) -> Seq<char> {
    match home {
        Some(dir) => if dir.len() > 0 {
            dir + "/.local/state"@
        } else {
            "./.local/state"@
        },
        None => "./.local/state"@,
    }
}

/// The base directory for state files: the dedicated state-home variable
/// when set and non-empty, the home fallback otherwise.
pub open spec fn spec_base_dir(
    xdg_state_home: Option<Seq<char>>,
    home: Option<Seq<char>>,
) -> Seq<char> {
    match xdg_state_home {
        Some(dir) => if dir.len() > 0 {
            dir
        } else {
            spec_home_fallback_dir(home)
        },
        None => spec_home_fallback_dir(home),
    }
}

/// The full path of the settings file: the application's own directory and
/// file name under the base directory.
pub open spec fn spec_state_file_path(
    xdg_state_home: Option<Seq<char>>,
    home: Option<Seq<char>>,
) -> Seq<char> {
    spec_base_dir(xdg_state_home, home) + "/io.github.heathcliff26.turbo-clicker/state.json"@
}

/// The home-directory fallback of [`get_state_file_path`].
fn home_fallback_dir(home: Option<String>) -> (dir: String)
    ensures
        dir@ == spec_home_fallback_dir(view_of(home)),
{
    match home {
        Some(dir) => {
            let mut dir = dir;
            if !dir.as_str().is_empty() {
                dir.append("/.local/state");
                dir
            } else {
                String::from_str("./.local/state")
            }
        },
        None => String::from_str("./.local/state"),
    }
}

/// Resolve the full path of the settings file from the values of the
/// state-home and home environment variables, each `None` when unset. An
/// empty value counts as unset, as it does for the tools that honour these
/// variables.
pub fn get_state_file_path(xdg_state_home: Option<String>, home: Option<String>) -> (path: String)
    ensures
        path@ == spec_state_file_path(view_of(xdg_state_home), view_of(home)),
{
    let mut base: String = match xdg_state_home {
        Some(dir) => {
            if !dir.as_str().is_empty() {
                dir
            } else {
                home_fallback_dir(home)
            }
        },
        None => home_fallback_dir(home),
    };
    base.append("/io.github.heathcliff26.turbo-clicker/state.json");
    base
}

} // verus!
