use todo_engine::state::IndexOutOfRange;
use todo_engine::sync::{
    pull_completed, pull_request, push_failed, push_request, status_is_success, Method, Request,
    JSON_CONTENT_TYPE, PUSH_INTERVAL_SECS, TASKS_URL,
};
use todo_engine::{Effects, Entry, Filter, Model, Msg};

fn entry(description: &str, completed: bool, editing: bool) -> Entry {
    Entry { description: description.to_string(), completed, editing }
}

fn sample() -> Vec<Entry> {
    vec![entry("a", true, false), entry("b", false, false), entry("c", false, false)]
}

fn persisted() -> Effects {
    Effects { persist: true, push: None }
}

fn untouched() -> Effects {
    Effects { persist: false, push: None }
}

#[test]
fn filter_fit_follows_the_completion_flag() {
    let done = entry("a", true, false);
    let open = entry("b", false, true);
    assert!(Filter::All.fit(&done));
    assert!(Filter::All.fit(&open));
    assert!(!Filter::Active.fit(&done));
    assert!(Filter::Active.fit(&open));
    assert!(Filter::Completed.fit(&done));
    assert!(!Filter::Completed.fit(&open));
}

#[test]
fn filter_href_is_the_canonical_address() {
    assert_eq!(Filter::All.href(), "#/");
    assert_eq!(Filter::Active.href(), "#/active");
    assert_eq!(Filter::Completed.href(), "#/completed");
}

#[test]
fn filter_label_is_the_name() {
    assert_eq!(Filter::All.label(), "All");
    assert_eq!(Filter::Active.label(), "Active");
    assert_eq!(Filter::Completed.label(), "Completed");
}

#[test]
fn filter_variants_come_in_order() {
    assert_eq!(Filter::variants(), [Filter::All, Filter::Active, Filter::Completed]);
}

#[test]
fn push_interval_is_five_seconds() {
    assert_eq!(PUSH_INTERVAL_SECS, 5);
}

#[test]
fn success_is_the_two_hundreds() {
    assert!(!status_is_success(0));
    assert!(!status_is_success(199));
    assert!(status_is_success(200));
    assert!(status_is_success(204));
    assert!(status_is_success(299));
    assert!(!status_is_success(300));
    assert!(!status_is_success(404));
    assert!(!status_is_success(408));
    assert!(!status_is_success(u16::MAX));
}

#[test]
fn pull_with_success_and_payload_replaces_the_list() {
    assert_eq!(pull_completed(200, Some(sample())), Msg::InitialSync(sample()));
    assert_eq!(pull_completed(299, Some(Vec::new())), Msg::InitialSync(Vec::new()));
}

#[test]
fn pull_without_success_or_payload_does_nothing() {
    assert_eq!(pull_completed(500, Some(sample())), Msg::Nope);
    assert_eq!(pull_completed(408, None), Msg::Nope);
    assert_eq!(pull_completed(200, None), Msg::Nope);
    assert_eq!(pull_completed(300, Some(sample())), Msg::Nope);
}

#[test]
fn create_restores_the_stored_entries() {
    let model = Model::create(Some(sample()));
    assert_eq!(model.state().entries, sample());
    assert_eq!(model.state().filter, Filter::All);
    assert_eq!(model.state().value, "");
    assert_eq!(model.state().edit_value, "");
}

#[test]
fn create_without_stored_entries_is_empty() {
    let model = Model::create(None);
    assert_eq!(model.state().entries, Vec::<Entry>::new());
    assert_eq!(model.state().filter, Filter::All);
}

#[test]
fn update_add_takes_the_new_entry_input() {
    let mut model = Model::create(Some(sample()));
    assert_eq!(model.update(Msg::Update("d".to_string())), Ok(untouched()));
    assert_eq!(model.state().value, "d");
    assert_eq!(model.update(Msg::Add), Ok(persisted()));
    assert_eq!(model.state().entries.len(), 4);
    assert_eq!(model.state().entries[3], entry("d", false, false));
    assert_eq!(model.state().value, "");
}

#[test]
fn update_edit_commits_the_edit_input() {
    let mut model = Model::create(Some(sample()));
    assert_eq!(model.update(Msg::SetFilter(Filter::Active)), Ok(untouched()));
    assert_eq!(model.update(Msg::ToggleEdit(1)), Ok(persisted()));
    assert_eq!(model.state().edit_value, "c");
    assert!(model.state().entries[2].editing);
    assert_eq!(model.update(Msg::UpdateEdit("cc".to_string())), Ok(untouched()));
    assert_eq!(model.state().edit_value, "cc");
    assert_eq!(model.update(Msg::Edit(1)), Ok(persisted()));
    assert_eq!(
        model.state().entries,
        vec![entry("a", true, false), entry("b", false, false), entry("cc", false, false)]
    );
    assert_eq!(model.state().edit_value, "");
}

#[test]
fn update_toggle_edit_copies_the_shown_description() {
    let mut model = Model::create(Some(sample()));
    model.update(Msg::SetFilter(Filter::Active)).unwrap();
    assert_eq!(model.update(Msg::ToggleEdit(0)), Ok(persisted()));
    assert_eq!(model.state().edit_value, "b");
    assert!(model.state().entries[1].editing);
    assert!(!model.state().entries[0].editing);
}

#[test]
fn update_toggle_and_remove_resolve_the_index() {
    let mut model = Model::create(Some(sample()));
    model.update(Msg::SetFilter(Filter::Active)).unwrap();
    assert_eq!(model.update(Msg::Toggle(1)), Ok(persisted()));
    assert_eq!(
        model.state().entries,
        vec![entry("a", true, false), entry("b", false, false), entry("c", true, false)]
    );
    assert_eq!(model.update(Msg::Remove(0)), Ok(persisted()));
    assert_eq!(model.state().entries, vec![entry("a", true, false), entry("c", true, false)]);
}

#[test]
fn update_reports_an_index_that_names_nothing() {
    let mut model = Model::create(Some(sample()));
    model.update(Msg::SetFilter(Filter::Completed)).unwrap();
    model.update(Msg::UpdateEdit("draft".to_string())).unwrap();
    let error = IndexOutOfRange { index: 1, shown: 1 };
    assert_eq!(model.update(Msg::Toggle(1)), Err(error));
    assert_eq!(model.update(Msg::ToggleEdit(1)), Err(error));
    assert_eq!(model.update(Msg::Edit(1)), Err(error));
    assert_eq!(model.update(Msg::Remove(1)), Err(error));
    assert_eq!(model.state().entries, sample());
    assert_eq!(model.state().edit_value, "draft");
    assert_eq!(model.state().filter, Filter::Completed);
}

#[test]
fn update_toggle_all_completes_then_reopens() {
    let mut model = Model::create(Some(sample()));
    assert_eq!(model.update(Msg::ToggleAll), Ok(persisted()));
    assert!(model.state().entries.iter().all(|e| e.completed));
    assert_eq!(model.update(Msg::ToggleAll), Ok(persisted()));
    assert!(model.state().entries.iter().all(|e| !e.completed));
}

#[test]
fn update_toggle_all_on_an_empty_view_sets_done() {
    let mut model = Model::create(Some(vec![entry("a", true, false)]));
    model.update(Msg::SetFilter(Filter::Active)).unwrap();
    assert_eq!(model.update(Msg::ToggleAll), Ok(persisted()));
    assert_eq!(model.state().entries, vec![entry("a", true, false)]);
}

#[test]
fn update_clear_completed_drops_the_done() {
    let mut model = Model::create(Some(sample()));
    model.update(Msg::SetFilter(Filter::Completed)).unwrap();
    assert_eq!(model.update(Msg::ClearCompleted), Ok(persisted()));
    assert_eq!(model.state().entries, vec![entry("b", false, false), entry("c", false, false)]);
    assert_eq!(model.state().filter, Filter::Completed);
}

#[test]
fn update_initial_sync_replaces_only_the_entries() {
    let mut model = Model::create(Some(sample()));
    model.update(Msg::SetFilter(Filter::Active)).unwrap();
    model.update(Msg::Update("typing".to_string())).unwrap();
    model.update(Msg::UpdateEdit("editing".to_string())).unwrap();
    assert_eq!(model.update(Msg::InitialSync(vec![entry("x", true, false)])), Ok(persisted()));
    assert_eq!(model.state().entries, vec![entry("x", true, false)]);
    assert_eq!(model.state().filter, Filter::Active);
    assert_eq!(model.state().value, "typing");
    assert_eq!(model.state().edit_value, "editing");
}

#[test]
fn update_failed_pull_keeps_the_entries() {
    let mut model = Model::create(Some(sample()));
    assert_eq!(model.update(pull_completed(503, None)), Ok(untouched()));
    assert_eq!(model.state().entries, sample());
}

fn push_of(entries: Vec<Entry>) -> Effects {
    Effects {
        persist: false,
        push: Some(Request {
            method: Method::Post,
            url: "http://[::]:8000/tasks",
            content_type: Some("application/json"),
            body: Some(entries),
        }),
    }
}

#[test]
fn update_tick_pushes_the_whole_list() {
    let mut model = Model::create(Some(sample()));
    model.update(Msg::SetFilter(Filter::Completed)).unwrap();
    assert_eq!(model.update(Msg::Tick), Ok(push_of(sample())));
    assert_eq!(model.state().entries, sample());
    assert_eq!(model.state().filter, Filter::Completed);
    assert_eq!(model.update(Msg::Tick), Ok(push_of(sample())));
}

#[test]
fn update_tick_pushes_the_list_as_it_is_after_edits() {
    let mut model = Model::create(Some(sample()));
    model.update(Msg::Toggle(1)).unwrap();
    model.update(Msg::Remove(0)).unwrap();
    assert_eq!(
        model.update(Msg::Tick),
        Ok(push_of(vec![entry("b", true, false), entry("c", false, false)]))
    );
}

#[test]
fn update_tick_on_an_empty_list_pushes_an_empty_list() {
    let mut model = Model::create(None);
    assert_eq!(model.update(Msg::Tick), Ok(push_of(Vec::new())));
}

#[test]
fn pull_request_gets_the_task_collection() {
    assert_eq!(
        pull_request(),
        Request {
            method: Method::Get,
            url: "http://[::]:8000/tasks",
            content_type: None,
            body: None,
        }
    );
}

#[test]
fn push_request_posts_the_entries_as_json() {
    assert_eq!(
        push_request(sample()),
        Request {
            method: Method::Post,
            url: "http://[::]:8000/tasks",
            content_type: Some("application/json"),
            body: Some(sample()),
        }
    );
}

#[test]
fn sync_constants_name_the_endpoint() {
    assert_eq!(TASKS_URL, "http://[::]:8000/tasks");
    assert_eq!(JSON_CONTENT_TYPE, "application/json");
}

#[test]
fn push_failed_is_any_status_but_success() {
    assert!(!push_failed(200));
    assert!(!push_failed(201));
    assert!(push_failed(199));
    assert!(push_failed(300));
    assert!(push_failed(408));
    assert!(push_failed(500));
}

#[test]
fn update_nope_does_nothing() {
    let mut model = Model::create(Some(sample()));
    assert_eq!(model.update(Msg::Nope), Ok(untouched()));
    assert_eq!(model.state().entries, sample());
}
