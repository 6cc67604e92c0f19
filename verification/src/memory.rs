//! The watched fields of one game build, refreshed together once per tick.

use vstd::prelude::*;
use crate::error::{Error, Field};
use crate::text::ArrayCString;
use crate::watcher::{rotated, Pair, Watcher, WatcherView};

verus! {

/// Where the mission index lies, from the base of the main module.
pub const MISS_IDX_OFFSET: u64 = 0x3D8800;

/// Where the menu state lies.
pub const MENU_STATE_OFFSET: u64 = 0x3D8808;

/// Where the loading flag lies.
pub const IS_LOADING_OFFSET: u64 = 0x3D89B0;

/// Where the level time lies.
pub const LEVEL_TIME_OFFSET: u64 = 0x4C6234;

/// Where the difficulty lies.
pub const DIFFICULTY_OFFSET: u64 = 0x5C1280;

/// Where the name of the cutscene lies.
pub const CUTSCENE_NAME_OFFSET: u64 = 0x5CF9DE;

/// What one tick read from the process, field by field; `None` where the read
/// failed.
#[derive(Clone, Copy, Debug, PartialEq, Eq)]
pub struct Readings {
    pub miss_idx: Option<i32>,
    pub menu_state: Option<i32>,
    pub is_loading: Option<i32>,
    pub level_time: Option<i32>,
    pub difficulty: Option<i32>,
    pub cutscene_name: Option<ArrayCString>,
}

/// The samples of every field after a refresh, the cutscene name decoded.
#[derive(Clone, Debug, PartialEq, Eq)]
pub struct Vars {
    /// The mission being played.
    pub miss_idx: Pair<i32>,
    /// The screen the game shows.
    pub menu_state: Pair<i32>,
    /// Nonzero while the game loads.
    pub is_loading: Pair<i32>,
    /// In-game ticks since the level started.
    pub level_time: Pair<i32>,
    /// The difficulty chosen; 0 is the easiest.
    pub difficulty: Pair<i32>,
    /// The cutscene shown last.
    pub cutscene_name: Pair<String>,
}

/// Mathematical model of [`Vars`].
pub struct VarsView {
    pub miss_idx: Pair<i32>,
    pub menu_state: Pair<i32>,
    pub is_loading: Pair<i32>,
    pub level_time: Pair<i32>,
    pub difficulty: Pair<i32>,
    pub cutscene_name: Pair<Seq<char>>,
}

impl View for Vars {
    type V = VarsView;

    open spec fn view(&self) -> VarsView {
        VarsView {
            miss_idx: self.miss_idx,
            menu_state: self.menu_state,
            is_loading: self.is_loading,
            level_time: self.level_time,
            difficulty: self.difficulty,
            cutscene_name: Pair {
                old: self.cutscene_name.old@,
                current: self.cutscene_name.current@,
            },
        }
    }
}

/// One watcher per field.
#[derive(Clone, Debug)]
pub struct MemoryWatchers {
    pub miss_idx: Watcher<i32>,
    pub menu_state: Watcher<i32>,
    pub is_loading: Watcher<i32>,
    pub level_time: Watcher<i32>,
    pub difficulty: Watcher<i32>,
    pub cutscene_name: Watcher<ArrayCString>,
}

/// Mathematical model of [`MemoryWatchers`].
pub struct MemoryWatchersView {
    pub miss_idx: WatcherView<i32>,
    pub menu_state: WatcherView<i32>,
    pub is_loading: WatcherView<i32>,
    pub level_time: WatcherView<i32>,
    pub difficulty: WatcherView<i32>,
    pub cutscene_name: WatcherView<ArrayCString>,
}

impl View for MemoryWatchers {
    type V = MemoryWatchersView;

    open spec fn view(&self) -> MemoryWatchersView {
        MemoryWatchersView {
            miss_idx: self.miss_idx@,
            menu_state: self.menu_state@,
            is_loading: self.is_loading@,
            level_time: self.level_time@,
            difficulty: self.difficulty@,
            cutscene_name: self.cutscene_name@,
        }
    }
}

impl MemoryWatchersView {
    /// No watcher holds a sample.
    pub open spec fn no_history(self) -> bool {
        &&& self.miss_idx.pair is None
        &&& self.menu_state.pair is None
        &&& self.is_loading.pair is None
        &&& self.level_time.pair is None
        &&& self.difficulty.pair is None
        &&& self.cutscene_name.pair is None
    }

    /// Every watcher has the path to its field.
    pub open spec fn configured_paths(self) -> bool {
        &&& self.miss_idx.path == Self::configured().miss_idx.path
        &&& self.menu_state.path == Self::configured().menu_state.path
        &&& self.is_loading.path == Self::configured().is_loading.path
        &&& self.level_time.path == Self::configured().level_time.path
        &&& self.difficulty.path == Self::configured().difficulty.path
        &&& self.cutscene_name.path == Self::configured().cutscene_name.path
    }

    /// The state of a watcher set that was just made: no sample, no path.
    pub open spec fn cleared() -> MemoryWatchersView {
        MemoryWatchersView {
            miss_idx: WatcherView { pair: None, path: Seq::empty() },
            menu_state: WatcherView { pair: None, path: Seq::empty() },
            is_loading: WatcherView { pair: None, path: Seq::empty() },
            level_time: WatcherView { pair: None, path: Seq::empty() },
            difficulty: WatcherView { pair: None, path: Seq::empty() },
            cutscene_name: WatcherView { pair: None, path: Seq::empty() },
        }
    }

    /// The state of a watcher set made for the game: no sample, and for each
    /// field the path to it.
    pub open spec fn configured() -> MemoryWatchersView {
        MemoryWatchersView {
            miss_idx: WatcherView { pair: None, path: seq![MISS_IDX_OFFSET] },
            menu_state: WatcherView { pair: None, path: seq![MENU_STATE_OFFSET] },
            is_loading: WatcherView { pair: None, path: seq![IS_LOADING_OFFSET] },
            level_time: WatcherView { pair: None, path: seq![LEVEL_TIME_OFFSET] },
            difficulty: WatcherView { pair: None, path: seq![DIFFICULTY_OFFSET] },
            cutscene_name: WatcherView { pair: None, path: seq![CUTSCENE_NAME_OFFSET] },
        }
    }

    /// The cutscene samples that a refresh with `name` as the latest would hold.
    pub open spec fn next_cutscene(self, name: ArrayCString) -> Pair<ArrayCString> {
        rotated(self.cutscene_name.pair, name)
    }

    /// Why a refresh with `readings` fails, if it does. The fields are looked
    /// at in a fixed order, the cutscene name first, and the first failure
    /// found is the one reported.
    pub open spec fn refresh_failure(self, readings: Readings) -> Option<Error> {
        if readings.cutscene_name is None {
            Some(Error::ReadFailure { field: Field::CutsceneName })
        } else if self.next_cutscene(readings.cutscene_name->0).old.text() is None
            || self.next_cutscene(readings.cutscene_name->0).current.text() is None {
            Some(Error::DecodeFailure)
        } else if readings.miss_idx is None {
            Some(Error::ReadFailure { field: Field::MissionIndex })
        } else if readings.menu_state is None {
            Some(Error::ReadFailure { field: Field::MenuState })
        } else if readings.is_loading is None {
            Some(Error::ReadFailure { field: Field::IsLoading })
        } else if readings.level_time is None {
            Some(Error::ReadFailure { field: Field::LevelTime })
        } else if readings.difficulty is None {
            Some(Error::ReadFailure { field: Field::Difficulty })
        } else {
            None
        }
    }

    /// The watchers after a refresh that took in every value of `readings`.
    pub open spec fn refreshed(self, readings: Readings) -> MemoryWatchersView {
        MemoryWatchersView {
            miss_idx: WatcherView {
                pair: Some(rotated(self.miss_idx.pair, readings.miss_idx->0)),
                path: self.miss_idx.path,
            },
            menu_state: WatcherView {
                pair: Some(rotated(self.menu_state.pair, readings.menu_state->0)),
                path: self.menu_state.path,
            },
            is_loading: WatcherView {
                pair: Some(rotated(self.is_loading.pair, readings.is_loading->0)),
                path: self.is_loading.path,
            },
            level_time: WatcherView {
                pair: Some(rotated(self.level_time.pair, readings.level_time->0)),
                path: self.level_time.path,
            },
            difficulty: WatcherView {
                pair: Some(rotated(self.difficulty.pair, readings.difficulty->0)),
                path: self.difficulty.path,
            },
            cutscene_name: WatcherView {
                pair: Some(self.next_cutscene(readings.cutscene_name->0)),
                path: self.cutscene_name.path,
            },
        }
    }

    /// What that refresh shows of every field.
    pub open spec fn snapshot(self, readings: Readings) -> VarsView {
        VarsView {
            miss_idx: rotated(self.miss_idx.pair, readings.miss_idx->0),
            menu_state: rotated(self.menu_state.pair, readings.menu_state->0),
            is_loading: rotated(self.is_loading.pair, readings.is_loading->0),
            level_time: rotated(self.level_time.pair, readings.level_time->0),
            difficulty: rotated(self.difficulty.pair, readings.difficulty->0),
            cutscene_name: Pair {
                old: self.next_cutscene(readings.cutscene_name->0).old.text()->0,
                current: self.next_cutscene(readings.cutscene_name->0).current.text()->0,
            },
        }
    }
}

/// Decodes a cutscene name as read from the game.
pub fn convert_cstring(cstring: ArrayCString) -> (result: Result<String, Error>)
    ensures
        match cstring.text() {
            Some(text) => result matches Ok(string) && string@ == text,
            None => result == Err::<String, Error>(Error::DecodeFailure),
        },
{
    match cstring.validate_utf8() {
        Ok(val) => Ok(val.to_owned()),
        Err(_) => Err(Error::DecodeFailure),
    }
}

impl MemoryWatchers {
    /// Takes in what one tick read. If every field was read and the cutscene
    /// name decodes, each watcher rotates its value in and the new samples are
    /// returned. Otherwise the first failure is reported and no watcher
    /// changes: a refresh happens for all fields or for none.
    pub fn update(&mut self, readings: &Readings) -> (result: Result<Vars, Error>)
        ensures
            match old(self)@.refresh_failure(*readings) {
                Some(error) => {
                    &&& result == Err::<Vars, Error>(error)
                    &&& final(self)@ == old(self)@
                },
                None => {
                    &&& result matches Ok(vars) && vars@ == old(self)@.snapshot(*readings)
                    &&& final(self)@ == old(self)@.refreshed(*readings)
                },
            },
    {
        let name = match readings.cutscene_name {
            Some(name) => self.cutscene_name.preview(name),
            None => return Err(Error::ReadFailure { field: Field::CutsceneName }),
        };
        let old_name = match convert_cstring(name.old) {
            Ok(text) => text,
            Err(error) => return Err(error),
        };
        let current_name = match convert_cstring(name.current) {
            Ok(text) => text,
            Err(error) => return Err(error),
        };
        let miss_idx = match readings.miss_idx {
            Some(value) => value,
            None => return Err(Error::ReadFailure { field: Field::MissionIndex }),
        };
        let menu_state = match readings.menu_state {
            Some(value) => value,
            None => return Err(Error::ReadFailure { field: Field::MenuState }),
        };
        let is_loading = match readings.is_loading {
            Some(value) => value,
            None => return Err(Error::ReadFailure { field: Field::IsLoading }),
        };
        let level_time = match readings.level_time {
            Some(value) => value,
            None => return Err(Error::ReadFailure { field: Field::LevelTime }),
        };
        let difficulty = match readings.difficulty {
            Some(value) => value,
            None => return Err(Error::ReadFailure { field: Field::Difficulty }),
        };
        self.cutscene_name.rotate(name.current);
        Ok(
            Vars {
                miss_idx: self.miss_idx.rotate(miss_idx),
                menu_state: self.menu_state.rotate(menu_state),
                is_loading: self.is_loading.rotate(is_loading),
                level_time: self.level_time.rotate(level_time),
                difficulty: self.difficulty.rotate(difficulty),
                cutscene_name: Pair { old: old_name, current: current_name },
            },
        )
    }
}

/// A watcher without samples for the field that lies `offset` bytes from the
/// base of the main module.
fn watch<T>(offset: u64) -> (watcher: Watcher<T>)
    ensures
        watcher@ == (WatcherView::<T> { pair: None, path: seq![offset] }),
{
    let path: [u64; 1] = [offset];
    assert(path@ =~= seq![offset]);
    Watcher::new(path.as_slice())
}

impl MemoryWatchers {
    /// Watchers without samples, each with the path to its field.
    pub fn configured() -> (watchers: Self)
        ensures
            watchers@ == MemoryWatchersView::configured(),
    {
        MemoryWatchers {
            miss_idx: watch(MISS_IDX_OFFSET),
            menu_state: watch(MENU_STATE_OFFSET),
            is_loading: watch(IS_LOADING_OFFSET),
            level_time: watch(LEVEL_TIME_OFFSET),
            difficulty: watch(DIFFICULTY_OFFSET),
            cutscene_name: watch(CUTSCENE_NAME_OFFSET),
        }
    }
}

impl Default for MemoryWatchers {
    /// Watchers without samples and without paths.
    fn default() -> (watchers: Self)
        ensures
            watchers@ == MemoryWatchersView::cleared(),
    {
        MemoryWatchers {
            miss_idx: Watcher::default(),
            menu_state: Watcher::default(),
            is_loading: Watcher::default(),
            level_time: Watcher::default(),
            difficulty: Watcher::default(),
            cutscene_name: Watcher::default(),
        }
    }
}

} // verus!
