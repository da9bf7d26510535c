//! How ready each module (hardware and remote services) is.
//!
//! Each module reports success or failure on its own; here those are folded
//! into one vocabulary, "not checked / checking / ready / failed", for the
//! settings screen.

use vstd::prelude::*;

verus! {

/// A module listed on the settings screen, in the order shown.
#[derive(Debug, Clone, Copy, PartialEq, Eq, Structural)]
pub enum Module {
    Display,
    SdCard,
    Microphone,
    Speaker,
    Wifi,
    RealtimeSession,
    WebSearch,
}

/// The current condition of one module.
#[derive(Debug, Clone, Copy, PartialEq, Eq, Structural)]
pub enum ModuleStatus {
    /// Not checked yet.
    NotChecked,
    /// Being checked or connected.
    Checking,
    /// Usable.
    Ready,
    /// Not usable. Details go to the serial log only; the screen says
    /// "Failed".
    Error,
}

impl ModuleStatus {
    pub fn is_ready(&self) -> (ready: bool)
        ensures
            ready == (*self == ModuleStatus::Ready),
    {
        matches!(self, ModuleStatus::Ready)
    }
}

/// The condition of every module: the input of the settings screen.
#[derive(Debug, Clone, PartialEq, Eq)]
pub struct ModuleStatuses {
    /// Anything drawn proves the display works, so it is always `Ready`.
    pub display: ModuleStatus,
    pub sd_card: ModuleStatus,
    pub microphone: ModuleStatus,
    pub speaker: ModuleStatus,
    pub wifi: ModuleStatus,
    pub realtime_session: ModuleStatus,
    /// `None` when no search key is configured: the row is not listed.
    pub web_search: Option<ModuleStatus>,
}

/// The rows of the settings screen, in display order.
pub open spec fn entries_of(s: ModuleStatuses) -> Seq<(Module, ModuleStatus)> {
    let base = seq![
        (Module::Display, s.display),
        (Module::SdCard, s.sd_card),
        (Module::Microphone, s.microphone),
        (Module::Speaker, s.speaker),
        (Module::Wifi, s.wifi),
        (Module::RealtimeSession, s.realtime_session),
    ];
    match s.web_search {
        Some(w) => base.push((Module::WebSearch, w)),
        None => base,
    }
}

pub open spec fn all_entries_ready(s: ModuleStatuses) -> bool {
    forall|i: int| 0 <= i < entries_of(s).len() ==> #[trigger] entries_of(s)[i].1 == ModuleStatus::Ready
}

impl ModuleStatuses {
    /// Right after power-on: nothing checked yet but the display. The
    /// speaker is counted as ready from the start, as it was never checked
    /// on its own; audio failures are reported through the microphone.
    /// Whether search is used is known only after reading the
    /// configuration, so `web_search` starts as `None`.
    pub fn booting() -> (s: Self)
        ensures
            s.display == ModuleStatus::Ready,
            s.sd_card == ModuleStatus::NotChecked,
            s.microphone == ModuleStatus::NotChecked,
            s.speaker == ModuleStatus::Ready,
            s.wifi == ModuleStatus::NotChecked,
            s.realtime_session == ModuleStatus::NotChecked,
            s.web_search is None,
    {
        ModuleStatuses {
            display: ModuleStatus::Ready,
            sd_card: ModuleStatus::NotChecked,
            microphone: ModuleStatus::NotChecked,
            speaker: ModuleStatus::Ready,
            wifi: ModuleStatus::NotChecked,
            realtime_session: ModuleStatus::NotChecked,
            web_search: None,
        }
    }

    /// `(module, status)` in display order; web search only when configured.
    pub fn entries(&self) -> (entries: Vec<(Module, &ModuleStatus)>)
        ensures
            entries@.len() == entries_of(*self).len(),
            forall|i: int|
                0 <= i < entries@.len() ==> (#[trigger] entries@[i]).0 == entries_of(*self)[i].0
                    && *entries@[i].1 == entries_of(*self)[i].1,
    {
        let mut entries = Vec::new();
        entries.push((Module::Display, &self.display));
        entries.push((Module::SdCard, &self.sd_card));
        entries.push((Module::Microphone, &self.microphone));
        entries.push((Module::Speaker, &self.speaker));
        entries.push((Module::Wifi, &self.wifi));
        entries.push((Module::RealtimeSession, &self.realtime_session));
        if let Some(web_search) = &self.web_search {
            entries.push((Module::WebSearch, web_search));
        }
        entries
    }

    /// Whether every listed module is ready.
    pub fn all_ready(&self) -> (ready: bool)
        ensures
            ready == all_entries_ready(*self),
    {
        let entries = self.entries();
        let mut i: usize = 0;
        while i < entries.len()
            invariant
                i <= entries.len(),
                entries@.len() == entries_of(*self).len(),
                forall|j: int|
                    0 <= j < entries@.len() ==> (#[trigger] entries@[j]).0 == entries_of(*self)[j].0
                        && *entries@[j].1 == entries_of(*self)[j].1,
                forall|j: int| 0 <= j < i ==> #[trigger] entries_of(*self)[j].1 == ModuleStatus::Ready,
            decreases entries.len() - i,
        {
            if !entries[i].1.is_ready() {
                return false;
            }
            i = i + 1;
        }
        true
    }
}

/// One failed or unchecked module is enough to keep the settings screen up.
pub proof fn law_one_problem_blocks_all_ready(s: ModuleStatuses, i: int)
    requires
        0 <= i < entries_of(s).len(),
        entries_of(s)[i].1 != ModuleStatus::Ready,
    ensures
        !all_entries_ready(s),
{
}

/// Without a search key, web search is never waited for.
pub proof fn law_search_listed_only_when_configured(s: ModuleStatuses)
    ensures
        s.web_search is None ==> entries_of(s).len() == 6,
        s.web_search is Some ==> entries_of(s).len() == 7 && entries_of(s)[6].0
            == Module::WebSearch,
{
}

} // verus!
