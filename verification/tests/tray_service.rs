use system_tray::{
    KsniTray, MenuId, MenuType, Mutation, PropertyChange, ProtoItem, SystemTrayBuilder,
    TrayError, TrayMenu, TrayStatus,
};

#[test]
fn build_with_valid_icon_yields_active_tray() {
    let builder = SystemTrayBuilder::new("/icons/app.png".to_string(), None);
    let tray = builder.build().unwrap();
    assert_eq!(tray.title(), "tray application");
    assert_eq!(tray.status(), TrayStatus::Active);
    assert_eq!(tray.icon_name(), "app");
    assert_eq!(tray.icon_theme_path(), "/icons");
    assert_eq!(tray.resolve_menu().len(), 0);
}

#[test]
fn build_without_parent_directory_fails() {
    let builder = SystemTrayBuilder::new("app.png".to_string(), None);
    match builder.build() {
        Err(TrayError::ConfigurationError) => {}
        _ => panic!("a bare file name must be rejected"),
    }
}

#[test]
fn build_with_parent_dir_tail_fails() {
    let builder = SystemTrayBuilder::new("/icons/..".to_string(), None);
    match builder.build() {
        Err(TrayError::ConfigurationError) => {}
        _ => panic!("a path ending in a parent-directory component has no file stem"),
    }
}

#[test]
fn building_twice_yields_independent_trays() {
    let first = SystemTrayBuilder::new("/icons/one.png".to_string(), None)
        .build()
        .unwrap();
    let second = SystemTrayBuilder::new("/icons/two.png".to_string(), None)
        .build()
        .unwrap();
    first.set_icon("/other/three.png").unwrap();
    assert_eq!(first.icon_name(), "three");
    assert_eq!(second.icon_name(), "two");
}

#[test]
fn set_icon_replaces_both_components() {
    let tray = SystemTrayBuilder::new("/icons/app.png".to_string(), None)
        .build()
        .unwrap();
    tray.set_icon("/theme/next.svg").unwrap();
    assert_eq!(tray.icon_name(), "next");
    assert_eq!(tray.icon_theme_path(), "/theme");
}

#[test]
fn set_icon_is_idempotent_under_repetition() {
    let tray = SystemTrayBuilder::new("/icons/app.png".to_string(), None)
        .build()
        .unwrap();
    tray.set_icon("/theme/next.svg").unwrap();
    let name_once = tray.icon_name();
    let theme_once = tray.icon_theme_path();
    tray.set_icon("/theme/next.svg").unwrap();
    assert_eq!(tray.icon_name(), name_once);
    assert_eq!(tray.icon_theme_path(), theme_once);
}

#[test]
fn set_icon_with_bad_path_reports_and_changes_nothing() {
    let tray = SystemTrayBuilder::new("/icons/app.png".to_string(), None)
        .build()
        .unwrap();
    assert_eq!(tray.set_icon("nodir"), Err(TrayError::ConfigurationError));
    assert_eq!(tray.icon_name(), "app");
    assert_eq!(tray.icon_theme_path(), "/icons");
}

fn labels_of(items: &[ProtoItem]) -> Vec<String> {
    items
        .iter()
        .map(|item| match item {
            ProtoItem::Standard { label, .. } => label.clone(),
            ProtoItem::Checkmark { label, .. } => label.clone(),
            ProtoItem::Separator => String::new(),
            ProtoItem::Submenu { label, .. } => label.clone(),
        })
        .collect()
}

#[test]
fn set_menu_fully_replaces_the_previous_model() {
    let mut old_menu = TrayMenu::new();
    old_menu.add_item(MenuId(1), "Old", None, true, false, MenuType::Native);
    let tray = SystemTrayBuilder::new("/icons/app.png".to_string(), Some(old_menu))
        .build()
        .unwrap();
    assert_eq!(labels_of(&tray.resolve_menu()), vec!["Old".to_string()]);

    let mut new_menu = TrayMenu::new();
    new_menu.add_item(MenuId(2), "New", None, true, false, MenuType::Native);
    new_menu.add_item(MenuId(3), "Newer", None, true, false, MenuType::Native);
    tray.set_menu(new_menu).unwrap();

    let resolved = tray.resolve_menu();
    let labels = labels_of(&resolved);
    assert_eq!(labels, vec!["New".to_string(), "Newer".to_string()]);
    assert!(!labels.contains(&"Old".to_string()));
}

#[test]
fn apply_reports_the_changed_property() {
    let tray = SystemTrayBuilder::new("/icons/app.png".to_string(), None)
        .build()
        .unwrap();
    assert_eq!(
        tray.apply(Mutation::SetTitle("renamed".to_string())),
        Ok(PropertyChange::Title)
    );
    assert_eq!(tray.title(), "renamed");
    assert_eq!(
        tray.apply(Mutation::SetStatus(TrayStatus::NeedsAttention)),
        Ok(PropertyChange::Status)
    );
    assert_eq!(tray.status(), TrayStatus::NeedsAttention);
    assert_eq!(
        tray.apply(Mutation::SetIcon("/new/icon.png".to_string())),
        Ok(PropertyChange::Icon)
    );
    assert_eq!(tray.icon_name(), "icon");
    assert_eq!(
        tray.apply(Mutation::SetIcon("bad".to_string())),
        Err(TrayError::ConfigurationError)
    );
    assert_eq!(tray.icon_name(), "icon");
}

#[test]
fn mutations_of_disjoint_properties_all_take_effect() {
    let tray = SystemTrayBuilder::new("/icons/app.png".to_string(), None)
        .build()
        .unwrap();
    let mut menu = TrayMenu::new();
    menu.add_item(MenuId(5), "Entry", None, true, false, MenuType::Native);

    let h1 = tray.handle();
    let h2 = tray.handle();
    let h3 = tray.handle();
    let h4 = tray.handle();
    h1.apply(Mutation::SetTitle("title".to_string())).unwrap();
    h2.apply(Mutation::SetStatus(TrayStatus::Passive)).unwrap();
    h3.apply(Mutation::SetIcon("/fresh/pic.png".to_string())).unwrap();
    h4.apply(Mutation::SetMenu(menu)).unwrap();

    assert_eq!(tray.title(), "title");
    assert_eq!(tray.status(), TrayStatus::Passive);
    assert_eq!(tray.icon_name(), "pic");
    assert_eq!(tray.icon_theme_path(), "/fresh");
    assert_eq!(tray.resolve_menu().len(), 1);
}

#[test]
fn state_constructors_decompose_the_icon_path() {
    let state = KsniTray::new("a tray", "/icons/app.png").unwrap();
    assert_eq!(state.title(), "a tray");
    assert_eq!(state.icon_name(), "app");
    assert_eq!(state.icon_theme_path(), "/icons");
    assert_eq!(state.status(), TrayStatus::Active);
    assert!(state.menu().is_none());

    match KsniTray::new("a tray", "app.png") {
        Err(TrayError::ConfigurationError) => {}
        _ => panic!("a bare file name must be rejected"),
    }
}

#[test]
fn state_constructor_with_menu_keeps_the_menu() {
    let mut menu = TrayMenu::new();
    menu.add_item(MenuId(1), "Entry", None, true, false, MenuType::Native);
    let state = KsniTray::new_with_menu("a tray", "/icons/app.png", menu).unwrap();
    let held = state.menu().as_ref().unwrap();
    assert_eq!(held.entries.len(), 1);
    assert_eq!(held.entries[0].label, "Entry");
}

#[test]
fn default_status_is_active() {
    assert_eq!(TrayStatus::default(), TrayStatus::Active);
}

#[test]
fn error_descriptions_are_not_empty() {
    assert!(!TrayError::ConfigurationError.describe().is_empty());
    assert!(!TrayError::UnimplementedFeature.describe().is_empty());
    assert!(!TrayError::StaleHandleUse.describe().is_empty());
}
