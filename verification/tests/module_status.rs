use m5a_core::module_status::{Module, ModuleStatus, ModuleStatuses};


fn ready() -> ModuleStatus {
    ModuleStatus::Ready
}

fn error() -> ModuleStatus {
    ModuleStatus::Error
}

#[test]
fn booting_has_nothing_checked_except_display() {
    let statuses = ModuleStatuses::booting();

    assert_eq!(statuses.display, ModuleStatus::Ready);
    assert_eq!(statuses.sd_card, ModuleStatus::NotChecked);
    assert!(statuses.web_search.is_none());
    assert!(!statuses.all_ready());
}

#[test]
fn web_search_is_excluded_from_entries_when_absent() {
    let mut statuses = ModuleStatuses::booting();
    statuses.sd_card = ready();
    statuses.microphone = ready();
    statuses.wifi = ready();
    statuses.realtime_session = ready();

    assert!(statuses
        .entries()
        .iter()
        .all(|(module, _)| *module != Module::WebSearch));
    assert!(statuses.all_ready());
}

#[test]
fn web_search_must_also_be_ready_when_present() {
    let mut statuses = ModuleStatuses::booting();
    statuses.sd_card = ready();
    statuses.microphone = ready();
    statuses.wifi = ready();
    statuses.realtime_session = ready();
    statuses.web_search = Some(ModuleStatus::Checking);

    assert!(!statuses.all_ready());

    statuses.web_search = Some(ready());
    assert!(statuses.all_ready());
}

#[test]
fn a_single_error_prevents_all_ready() {
    let mut statuses = ModuleStatuses::booting();
    statuses.sd_card = ready();
    statuses.microphone = ready();
    statuses.wifi = error();
    statuses.realtime_session = ready();

    assert!(!statuses.all_ready());
}
