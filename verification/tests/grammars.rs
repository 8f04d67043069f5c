use texas::grammars::{
    asset_action, grammars_file_name, is_up_to_date, release_version, select_grammar_release, AssetAction,
    ReleaseInfo, GRAMMAR_RELEASE_TAG,
};

fn release(tag_name: &str) -> ReleaseInfo {
    ReleaseInfo {
        tag_name: tag_name.to_owned(),
        target_commitish: String::new(),
        assets: Vec::new(),
        version: String::new(),
    }
}

#[test]
fn grammar_release_is_selected_independently_of_app_version() {
    let selected = select_grammar_release(vec![
        release("v0.1.0"),
        release(GRAMMAR_RELEASE_TAG),
        release("nightly"),
    ])
    .unwrap();

    assert_eq!(selected.tag_name, GRAMMAR_RELEASE_TAG);
}

#[test]
fn grammar_release_is_missing_without_its_tag() {
    assert!(select_grammar_release(vec![release("v0.1.0"), release("nightly")]).is_none());
    assert!(select_grammar_release(Vec::new()).is_none());
}

#[test]
fn first_release_with_the_tag_is_taken() {
    let mut first = release(GRAMMAR_RELEASE_TAG);
    first.version = "first".to_string();
    let mut second = release(GRAMMAR_RELEASE_TAG);
    second.version = "second".to_string();
    let selected = select_grammar_release(vec![release("x"), first, second]).unwrap();
    assert_eq!(selected.version, "first");
}

#[test]
fn nightly_release_is_recorded_with_its_short_commit() {
    let mut nightly = release("nightly");
    nightly.target_commitish = "1f9f9dd0123456789".to_string();
    assert_eq!(release_version(&nightly), "nightly-1f9f9dd");
    assert_eq!(release_version(&release("v0.4.5")), "v0.4.5");
}

#[test]
fn assets_are_handled_by_their_extension() {
    let prefix = grammars_file_name("linux", "x86_64");
    assert_eq!(prefix, "grammars-linux-x86_64");
    assert_eq!(asset_action("grammars-linux-x86_64.zip", &prefix), AssetAction::ExtractZip);
    assert_eq!(asset_action("grammars-linux-x86_64.tar.zst", &prefix), AssetAction::ExtractTarZst);
    assert_eq!(asset_action("grammars-linux-x86_64.sha256", &prefix), AssetAction::DownloadOnly);
    assert_eq!(asset_action("grammars-windows-x86_64.zip", &prefix), AssetAction::Skip);
    assert_eq!(asset_action("queries.zip", "queries"), AssetAction::ExtractZip);
}

#[test]
fn up_to_date_means_same_version() {
    assert!(is_up_to_date("v0.4.5", "v0.4.5"));
    assert!(!is_up_to_date("v0.4.4", "v0.4.5"));
}
