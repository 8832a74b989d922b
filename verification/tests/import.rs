use tg2mx_bot::db::AccountDataDatabase;
use tg2mx_bot::import::{Import, ImportAction, ImportError, ImportEvent, ImportResult};
use tg2mx_bot::worker::Outcome;

fn causes(texts: &[&str]) -> Vec<String> {
    texts.iter().map(|t| t.to_string()).collect()
}

fn finish(action: ImportAction) -> ImportResult {
    match action {
        ImportAction::Finish(result) => result,
        _ => panic!("the import did not end"),
    }
}

fn pack_name(url: &str) -> Option<String> {
    let (state, action) = Import::start(url, true, true);
    match action {
        ImportAction::LoadCache => {}
        ImportAction::Finish(ImportResult::Failed(ImportError::InvalidUrl(_))) => return None,
        _ => panic!("unexpected first action"),
    }
    match state.step(ImportEvent::CacheLoaded(None)).1 {
        ImportAction::FetchPack(name) => Some(name),
        _ => panic!("unexpected second action"),
    }
}

#[test]
fn pack_addresses_are_recognised() {
    assert_eq!(pack_name("https://t.me/addstickers/Foo_Bar"), Some("Foo_Bar".to_string()));
    assert_eq!(pack_name("t.me/addstickers/Foo"), Some("Foo".to_string()));
    assert_eq!(pack_name("tg://addstickers?set=Foo"), Some("Foo".to_string()));
    assert_eq!(pack_name("https://t.me/addstickers/"), Some("".to_string()));
    assert_eq!(pack_name("http://t.me/addstickers/Foo"), None);
    assert_eq!(pack_name("Foo"), None);
    assert_eq!(pack_name(""), None);
}

#[test]
fn invalid_address_is_a_final_failure() {
    let (_, action) = Import::start("Foo", true, true);
    let result = finish(action);
    let chain = match result.outcome() {
        Outcome::Failed(chain) => chain,
        other => panic!("not failed: {other:?}"),
    };
    assert_eq!(chain.len(), 2);
    assert_eq!(chain[0], "Invalid sticker pack url");
    assert!(chain[1].starts_with("\"Foo\" does not look like a Telegram StickerPack"), "{}", chain[1]);
}

#[test]
fn import_needs_the_bots_identity() {
    let (_, action) = Import::start("t.me/addstickers/Foo", false, true);
    assert_eq!(finish(action), ImportResult::Failed(ImportError::NoUserId));
    let (_, action) = Import::start("t.me/addstickers/Foo", true, false);
    assert_eq!(finish(action), ImportResult::Failed(ImportError::NoAccessToken));
    let (_, action) = Import::start("Foo", false, false);
    assert!(matches!(finish(action), ImportResult::Failed(ImportError::InvalidUrl(_))));
    assert_eq!(
        ImportResult::Failed(ImportError::NoUserId).outcome(),
        Outcome::Failed(causes(&["Unable to obtain my own matrix user id"]))
    );
    assert_eq!(
        ImportResult::Failed(ImportError::NoAccessToken).outcome(),
        Outcome::Failed(causes(&["Unable to obtain my own matrix access token"]))
    );
}

#[test]
fn import_runs_from_cache_to_cache() {
    let mut stored = AccountDataDatabase::load(None);
    stored.add([7u8; 64], "mxc://x/seven".to_string());
    let stored = stored.store();

    let (state, action) = Import::start("https://t.me/addstickers/My_Pack", true, true);
    assert!(matches!(action, ImportAction::LoadCache));
    let (state, action) = state.step(ImportEvent::CacheLoaded(Some(stored)));
    assert!(matches!(&action, ImportAction::FetchPack(name) if name == "My_Pack"));
    let (state, action) = state.step(ImportEvent::PackFetched);
    let mut db = match action {
        ImportAction::ImportPack(db) => db,
        _ => panic!("the import did not hand out the cache"),
    };
    // content that was uploaded before is found, new content is recorded
    assert_eq!(db.get(&[7u8; 64]), Some("mxc://x/seven".to_string()));
    assert_eq!(db.get(&[8u8; 64]), None);
    db.add([8u8; 64], "mxc://x/eight".to_string());
    let (state, action) = state.step(ImportEvent::Imported(db, 2));
    assert!(matches!(&action, ImportAction::WritePack(id) if id == "mypack"));
    let (state, action) = state.step(ImportEvent::PackWritten);
    let text = match action {
        ImportAction::StoreCache(text) => text,
        _ => panic!("the cache is not written back"),
    };
    let back = AccountDataDatabase::load(Some(&text));
    assert_eq!(back.get(&[7u8; 64]), Some("mxc://x/seven".to_string()));
    assert_eq!(back.get(&[8u8; 64]), Some("mxc://x/eight".to_string()));
    let (state, action) = state.step(ImportEvent::CacheStored);
    let result = finish(action);
    assert_eq!(result, ImportResult::Imported(2));
    assert_eq!(result.outcome(), Outcome::Succeeded);
    let (_, action) = state.step(ImportEvent::CacheStored);
    assert!(matches!(action, ImportAction::Nothing));
}

#[test]
fn cache_is_written_back_after_a_failure() {
    let (state, _) = Import::start("t.me/addstickers/Foo", true, true);
    let (state, _) = state.step(ImportEvent::CacheLoaded(None));
    let (state, action) = state.step(ImportEvent::FetchFailed(causes(&["404"])));
    assert!(matches!(&action, ImportAction::StoreCache(text) if text == b"[]"));
    let (_, action) = state.step(ImportEvent::CacheStored);
    let result = finish(action);
    assert_eq!(result, ImportResult::Failed(ImportError::Telegram(causes(&["404"]))));
    assert_eq!(
        result.outcome(),
        Outcome::Failed(causes(&["Failed to load the sticker pack from telegram", "404"]))
    );

    let (state, _) = Import::start("t.me/addstickers/Foo", true, true);
    let (state, _) = state.step(ImportEvent::CacheLoaded(None));
    let (state, action) = state.step(ImportEvent::PackFetched);
    let db = match action {
        ImportAction::ImportPack(db) => db,
        _ => panic!("the import did not hand out the cache"),
    };
    let (state, _) = state.step(ImportEvent::Imported(db, 0));
    let (state, action) = state.step(ImportEvent::StateFailed(causes(&["M_FORBIDDEN"])));
    assert!(matches!(action, ImportAction::StoreCache(_)));
    let (_, action) = state.step(ImportEvent::CacheStored);
    let result = finish(action);
    assert_eq!(result, ImportResult::Failed(ImportError::StateWrite(causes(&["M_FORBIDDEN"]))));
    assert_eq!(
        result.outcome(),
        Outcome::Failed(causes(&["Failed to add the sticker pack to the room", "M_FORBIDDEN"]))
    );
}

#[test]
fn unreachable_cache_fails_the_import() {
    let (state, _) = Import::start("t.me/addstickers/Foo", true, true);
    let (_, action) = state.step(ImportEvent::StoreFailed(causes(&["timeout"])));
    let result = finish(action);
    assert_eq!(result, ImportResult::Failed(ImportError::CacheLoad(causes(&["timeout"]))));
    assert_eq!(
        ImportError::CacheLoad(causes(&["timeout"])).chain(),
        causes(&["Failed to load database from account data", "timeout"])
    );
    assert_eq!(
        result.outcome(),
        Outcome::Failed(causes(&["Failed to load database from account data", "timeout"]))
    );
}
