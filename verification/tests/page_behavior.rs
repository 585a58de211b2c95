use extensions_ui::buttons::ButtonLabel;
use extensions_ui::buttons::EntryButton;
use extensions_ui::buttons::StoreCommand;
use extensions_ui::buttons::buttons_for_entry;
use extensions_ui::buttons::dev_buttons_for_entry;
use extensions_ui::buttons::remote_button_event;
use extensions_ui::entries::DevExtension;
use extensions_ui::entries::RemoteExtension;
use extensions_ui::entries::author_line;
use extensions_ui::entries::dev_match_candidate_names;
use extensions_ui::entries::select_matched_dev_extensions;
use extensions_ui::entries::version_label;
use extensions_ui::filter::ExtensionFilter;
use extensions_ui::filter::compute_filtered_indices;
use extensions_ui::filter::status_admitted;
use extensions_ui::page::ExtensionsPage;
use extensions_ui::page::FetchError;
use extensions_ui::page::ListEntry;
use extensions_ui::query::space_char;
use extensions_ui::query::text_is_blank;
use extensions_ui::status::ExtensionStatus;

fn remote(id: &str, version: &str) -> RemoteExtension {
    RemoteExtension {
        id: id.to_string(),
        name: format!("{id} name"),
        version: version.to_string(),
        authors: vec!["Ada".to_string()],
        description: Some("does things".to_string()),
        repository: format!("https://example.com/{id}"),
        download_count: 7,
    }
}

fn dev(id: &str) -> DevExtension {
    DevExtension {
        id: id.to_string(),
        name: format!("{id} name"),
        version: "0.1.0".to_string(),
        authors: vec!["Ada".to_string()],
        description: None,
        repository: None,
    }
}

#[test]
fn new_page_is_empty_and_unfiltered() {
    let page = ExtensionsPage::new();
    assert!(!page.is_fetching_extensions);
    assert_eq!(page.filter, ExtensionFilter::All);
    assert!(page.remote_extension_entries.is_empty());
    assert!(page.dev_extension_entries.is_empty());
    assert!(page.filtered_remote_extension_indices.is_empty());
    assert_eq!(page.query, "");
    assert!(!page.query_contains_error);
}

#[test]
fn dev_extensions_hidden_only_for_not_installed() {
    assert!(ExtensionFilter::All.include_dev_extensions());
    assert!(ExtensionFilter::Installed.include_dev_extensions());
    assert!(!ExtensionFilter::NotInstalled.include_dev_extensions());
}

#[test]
fn status_admitted_follows_filter() {
    let installed = ExtensionStatus::Installed("1.0.0".to_string());
    assert!(status_admitted(ExtensionFilter::All, &installed));
    assert!(status_admitted(ExtensionFilter::All, &ExtensionStatus::Removing));
    assert!(status_admitted(ExtensionFilter::Installed, &installed));
    assert!(!status_admitted(ExtensionFilter::Installed, &ExtensionStatus::NotInstalled));
    assert!(!status_admitted(ExtensionFilter::Installed, &ExtensionStatus::Installing));
    assert!(status_admitted(ExtensionFilter::NotInstalled, &ExtensionStatus::NotInstalled));
    assert!(!status_admitted(ExtensionFilter::NotInstalled, &installed));
}

#[test]
fn filtered_indices_keep_order_and_filter() {
    let statuses = vec![
        ExtensionStatus::Installed("1.0.0".to_string()),
        ExtensionStatus::NotInstalled,
        ExtensionStatus::Installing,
        ExtensionStatus::Installed("2.0.0".to_string()),
        ExtensionStatus::Removing,
    ];
    assert_eq!(
        compute_filtered_indices(ExtensionFilter::All, &statuses),
        vec![0, 1, 2, 3, 4]
    );
    assert_eq!(
        compute_filtered_indices(ExtensionFilter::Installed, &statuses),
        vec![0, 3]
    );
    assert_eq!(
        compute_filtered_indices(ExtensionFilter::NotInstalled, &statuses),
        vec![1]
    );
    assert_eq!(
        compute_filtered_indices(ExtensionFilter::All, &Vec::new()),
        Vec::<usize>::new()
    );
}

#[test]
fn not_installed_entry_gets_enabled_install_button() {
    let e = remote("pkl", "1.2.3");
    let (install, upgrade) = buttons_for_entry(&e, &ExtensionStatus::NotInstalled);
    assert_eq!(
        install,
        EntryButton {
            label: ButtonLabel::Install,
            command: Some(StoreCommand::Install {
                id: "pkl".to_string(),
                version: "1.2.3".to_string(),
            }),
        }
    );
    assert_eq!(upgrade, None);
}

#[test]
fn installing_entry_gets_disabled_install_button() {
    let e = remote("pkl", "1.2.3");
    let (install, upgrade) = buttons_for_entry(&e, &ExtensionStatus::Installing);
    assert_eq!(install, EntryButton { label: ButtonLabel::Install, command: None });
    assert_eq!(upgrade, None);
}

#[test]
fn upgrading_entry_gets_two_disabled_buttons() {
    let e = remote("pkl", "1.2.3");
    let (uninstall, upgrade) = buttons_for_entry(&e, &ExtensionStatus::Upgrading);
    assert_eq!(uninstall, EntryButton { label: ButtonLabel::Uninstall, command: None });
    assert_eq!(
        upgrade,
        Some(EntryButton { label: ButtonLabel::Upgrade, command: None })
    );
}

#[test]
fn up_to_date_entry_gets_no_upgrade_button() {
    let e = remote("pkl", "1.2.3");
    let status = ExtensionStatus::Installed("1.2.3".to_string());
    let (uninstall, upgrade) = buttons_for_entry(&e, &status);
    assert_eq!(
        uninstall,
        EntryButton {
            label: ButtonLabel::Uninstall,
            command: Some(StoreCommand::Uninstall { id: "pkl".to_string() }),
        }
    );
    assert_eq!(upgrade, None);
}

#[test]
fn outdated_entry_gets_enabled_upgrade_button() {
    let e = remote("pkl", "1.2.3");
    let status = ExtensionStatus::Installed("1.0.0".to_string());
    let (_, upgrade) = buttons_for_entry(&e, &status);
    assert_eq!(
        upgrade,
        Some(EntryButton {
            label: ButtonLabel::Upgrade,
            command: Some(StoreCommand::Upgrade {
                id: "pkl".to_string(),
                version: "1.2.3".to_string(),
            }),
        })
    );
}

#[test]
fn removing_entry_gets_disabled_uninstall_button() {
    let e = remote("pkl", "1.2.3");
    let (uninstall, upgrade) = buttons_for_entry(&e, &ExtensionStatus::Removing);
    assert_eq!(uninstall, EntryButton { label: ButtonLabel::Uninstall, command: None });
    assert_eq!(upgrade, None);
}

#[test]
fn dev_entry_buttons_follow_status() {
    let e = dev("local");
    let (rebuild, uninstall) = dev_buttons_for_entry(&e, &ExtensionStatus::Installed("0.1.0".to_string()));
    assert_eq!(
        rebuild,
        EntryButton {
            label: ButtonLabel::Rebuild,
            command: Some(StoreCommand::Rebuild { id: "local".to_string() }),
        }
    );
    assert_eq!(
        uninstall,
        EntryButton {
            label: ButtonLabel::Uninstall,
            command: Some(StoreCommand::Uninstall { id: "local".to_string() }),
        }
    );

    let (rebuild, _) = dev_buttons_for_entry(&e, &ExtensionStatus::Upgrading);
    assert_eq!(rebuild.command, None);
    let (_, uninstall) = dev_buttons_for_entry(&e, &ExtensionStatus::Removing);
    assert_eq!(uninstall.command, None);
}

#[test]
fn remote_buttons_report_telemetry_events() {
    assert_eq!(
        remote_button_event(ButtonLabel::Install),
        Some("extensions: install extension")
    );
    assert_eq!(
        remote_button_event(ButtonLabel::Upgrade),
        Some("extensions: install extension")
    );
    assert_eq!(
        remote_button_event(ButtonLabel::Uninstall),
        Some("extensions: uninstall extension")
    );
    assert_eq!(remote_button_event(ButtonLabel::Rebuild), None);
}

#[test]
fn blank_queries_have_no_search() {
    assert!(text_is_blank(&"".to_string()));
    assert!(text_is_blank(&"   \t\n".to_string()));
    assert!(text_is_blank(&"\u{00A0}\u{3000}".to_string()));
    assert!(!text_is_blank(&"  rust  ".to_string()));
    assert!(space_char(' '));
    assert!(space_char('\u{2028}'));
    assert!(!space_char('x'));
}

#[test]
fn search_query_returns_untrimmed_text() {
    let mut page = ExtensionsPage::new();
    assert_eq!(page.search_query(), None);
    page.query = "  rust  ".to_string();
    assert_eq!(page.search_query(), Some("  rust  ".to_string()));
    page.query = " \t ".to_string();
    assert_eq!(page.search_query(), None);
}

#[test]
fn typing_debounces_and_clearing_does_not() {
    let mut page = ExtensionsPage::new();
    page.query_contains_error = true;
    let intent = page.on_query_change("vim".to_string());
    assert!(!page.query_contains_error);
    assert_eq!(page.query, "vim");
    assert_eq!(intent.search, Some("vim".to_string()));
    assert_eq!(intent.delay_ms, 250);

    let intent = page.on_query_change("".to_string());
    assert_eq!(intent.search, None);
    assert_eq!(intent.delay_ms, 0);
}

#[test]
fn successful_fetch_replaces_and_refilters() {
    let mut page = ExtensionsPage::new();
    page.begin_fetch();
    assert!(page.is_fetching_extensions);

    let entries = vec![remote("a", "1.0.0"), remote("b", "2.0.0")];
    let statuses = vec![
        ExtensionStatus::NotInstalled,
        ExtensionStatus::Installed("2.0.0".to_string()),
    ];
    let r = page.complete_fetch(vec![dev("local")], Ok(entries), &statuses);
    assert_eq!(r, Ok(()));
    assert!(!page.is_fetching_extensions);
    assert_eq!(page.remote_extension_entries.len(), 2);
    assert_eq!(page.dev_extension_entries.len(), 1);
    assert_eq!(page.filtered_remote_extension_indices, vec![0, 1]);

    page.set_filter(ExtensionFilter::Installed, &statuses);
    assert_eq!(page.filtered_remote_extension_indices, vec![1]);
    page.set_filter(ExtensionFilter::NotInstalled, &statuses);
    assert_eq!(page.filtered_remote_extension_indices, vec![0]);
}

#[test]
fn failed_fetch_keeps_old_entries() {
    let mut page = ExtensionsPage::new();
    let statuses = vec![ExtensionStatus::NotInstalled];
    let r = page.complete_fetch(Vec::new(), Ok(vec![remote("a", "1.0.0")]), &statuses);
    assert_eq!(r, Ok(()));

    page.begin_fetch();
    let err = FetchError { message: "offline".to_string() };
    let r = page.complete_fetch(
        vec![dev("local")],
        Err(FetchError { message: "offline".to_string() }),
        &Vec::new(),
    );
    assert_eq!(r, Err(err));
    assert!(!page.is_fetching_extensions);
    assert_eq!(page.remote_extension_entries.len(), 1);
    assert_eq!(page.filtered_remote_extension_indices, vec![0]);
    assert_eq!(page.dev_extension_entries.len(), 1);
}

#[test]
fn rows_list_dev_entries_first() {
    let mut page = ExtensionsPage::new();
    let statuses = vec![
        ExtensionStatus::NotInstalled,
        ExtensionStatus::Installed("1.0.0".to_string()),
        ExtensionStatus::NotInstalled,
    ];
    let entries = vec![remote("a", "1.0.0"), remote("b", "1.0.0"), remote("c", "1.0.0")];
    page.complete_fetch(vec![dev("d0"), dev("d1")], Ok(entries), &statuses).unwrap();

    assert_eq!(page.entry_count(), 5);
    let rows = page.rows_for_range(0, 5);
    assert_eq!(
        rows,
        vec![
            ListEntry::Dev { index: 0 },
            ListEntry::Dev { index: 1 },
            ListEntry::Remote { index: 0 },
            ListEntry::Remote { index: 1 },
            ListEntry::Remote { index: 2 },
        ]
    );
    let rows = page.rows_for_range(1, 3);
    assert_eq!(
        rows,
        vec![ListEntry::Dev { index: 1 }, ListEntry::Remote { index: 0 }]
    );

    page.set_filter(ExtensionFilter::NotInstalled, &statuses);
    assert_eq!(page.entry_count(), 2);
    let rows = page.rows_for_range(0, 2);
    assert_eq!(
        rows,
        vec![ListEntry::Remote { index: 0 }, ListEntry::Remote { index: 2 }]
    );
}

#[test]
fn empty_state_message_names_filter_and_search() {
    let mut page = ExtensionsPage::new();
    page.is_fetching_extensions = true;
    assert_eq!(page.render_empty_state(), "Loading extensions...");
    page.is_fetching_extensions = false;
    assert_eq!(page.render_empty_state(), "No extensions.");
    page.query = "vim".to_string();
    assert_eq!(page.render_empty_state(), "No extensions that match your search.");
    page.filter = ExtensionFilter::Installed;
    assert_eq!(
        page.render_empty_state(),
        "No installed extensions that match your search."
    );
    page.query = String::new();
    assert_eq!(page.render_empty_state(), "No installed extensions.");
    page.filter = ExtensionFilter::NotInstalled;
    assert_eq!(page.render_empty_state(), "No not installed extensions.");
    page.query = "vim".to_string();
    assert_eq!(
        page.render_empty_state(),
        "No not installed extensions that match your search."
    );
}

#[test]
fn matched_dev_extensions_come_back_in_match_order() {
    let all = vec![dev("alpha"), dev("beta"), dev("gamma")];
    let matched = select_matched_dev_extensions(&all, &vec![2, 0]);
    assert_eq!(matched.len(), 2);
    assert_eq!(matched[0], dev("gamma"));
    assert_eq!(matched[1], dev("alpha"));
    assert!(select_matched_dev_extensions(&all, &Vec::new()).is_empty());
}

#[test]
fn match_candidates_are_the_dev_names_in_order() {
    let all = vec![dev("alpha"), dev("beta")];
    assert_eq!(
        dev_match_candidate_names(&all),
        vec!["alpha name".to_string(), "beta name".to_string()]
    );
}

#[test]
fn card_labels_join_authors_and_prefix_version() {
    assert_eq!(author_line(&vec!["Ada".to_string()]), "Author: Ada");
    assert_eq!(
        author_line(&vec!["Ada".to_string(), "Brian".to_string(), "Grace".to_string()]),
        "Authors: Ada, Brian, Grace"
    );
    assert_eq!(author_line(&Vec::new()), "Author: ");
    assert_eq!(version_label(&"1.2.3".to_string()), "v1.2.3");
}
