use tg2mx_bot::migrate::{
    MigrateAction, MigrateError, MigrateEvent, MigrateResult, Migration, ACCEPT,
    MAX_CONTENT_LENGTH, USER_AGENT,
};
use tg2mx_bot::worker::Outcome;

const PACK: &str = "{\"title\":\"My Pack\",\"id\":\"MyPackId\",\"stickers\":[{\"body\":\"smile\",\"url\":\"mxc://x/abc\",\"info\":{\"w\":256,\"h\":128,\"size\":1234,\"mimetype\":\"image/png\",\"thumbnail_url\":\"mxc://x/abc\",\"thumbnail_info\":{\"w\":256,\"h\":128,\"size\":1234,\"mimetype\":\"image/png\"}},\"id\":\"st1\"}]}";

const ROOM_PACK: &str = "{\"images\":{\"st1\":{\"body\":\"smile\",\"info\":{\"w\":256,\"h\":128,\"size\":1234,\"mimetype\":\"image/png\"},\"url\":\"mxc://x/abc\",\"usage\":[\"sticker\"]}},\"pack\":{\"display_name\":\"My Pack\",\"avatar_url\":null}}";

fn causes(texts: &[&str]) -> Vec<String> {
    texts.iter().map(|t| t.to_string()).collect()
}

/// Drives a migration of `body`, delivered in `parts`, against a room that
/// has the packs `room`. Returns the actions and the room afterwards.
fn run(parts: &[&[u8]], declared: Option<u64>, room: &mut Vec<String>) -> Vec<MigrateAction> {
    let (mut state, first) = Migration::start("https://example.org/pack.json");
    let mut actions = vec![first.clone()];
    let mut action = first;
    let mut parts = parts.iter();
    for _ in 0..1000 {
        let event = match &action {
            MigrateAction::Fetch(_) => MigrateEvent::Response(declared),
            MigrateAction::ReadChunk => match parts.next() {
                Some(part) => MigrateEvent::Chunk(part.to_vec()),
                None => MigrateEvent::BodyEnd,
            },
            MigrateAction::ReadPack(id) => MigrateEvent::PackState(room.contains(id)),
            MigrateAction::WritePack(id, _) => {
                room.push(id.clone());
                MigrateEvent::PackWritten
            }
            MigrateAction::Finish(_) | MigrateAction::Nothing => return actions,
        };
        let (next, then) = state.step(event);
        state = next;
        actions.push(then.clone());
        action = then;
    }
    panic!("the migration did not end");
}

#[test]
fn pack_is_written_under_its_identifier() {
    let mut room = Vec::new();
    let bytes = PACK.as_bytes();
    let actions = run(&[&bytes[..10], &bytes[10..]], Some(bytes.len() as u64), &mut room);
    assert_eq!(
        actions,
        vec![
            MigrateAction::Fetch("https://example.org/pack.json".to_string()),
            MigrateAction::ReadChunk,
            MigrateAction::ReadChunk,
            MigrateAction::ReadChunk,
            MigrateAction::ReadPack("mypackid".to_string()),
            MigrateAction::WritePack("mypackid".to_string(), ROOM_PACK.as_bytes().to_vec()),
            MigrateAction::Finish(MigrateResult::Migrated),
        ]
    );
    assert_eq!(room, vec!["mypackid".to_string()]);
}

#[test]
fn second_migration_of_a_pack_writes_nothing() {
    let mut room = Vec::new();
    run(&[PACK.as_bytes()], None, &mut room);
    assert_eq!(room.len(), 1);
    let actions = run(&[PACK.as_bytes()], None, &mut room);
    assert_eq!(actions.last(), Some(&MigrateAction::Finish(MigrateResult::Skipped)));
    assert!(actions.iter().all(|a| !matches!(a, MigrateAction::WritePack(_, _))));
    assert_eq!(room.len(), 1);
    assert_eq!(MigrateResult::Skipped.outcome(), Outcome::Succeeded);
    assert_eq!(MigrateResult::Migrated.outcome(), Outcome::Succeeded);
}

#[test]
fn document_of_exactly_the_cap_is_taken() {
    let mut body = PACK.as_bytes().to_vec();
    body.resize(MAX_CONTENT_LENGTH, b' ');
    let mut room = Vec::new();
    let actions = run(&[&body], Some(MAX_CONTENT_LENGTH as u64), &mut room);
    assert_eq!(actions.last(), Some(&MigrateAction::Finish(MigrateResult::Migrated)));
}

#[test]
fn document_one_byte_over_the_cap_is_refused() {
    assert_eq!(MAX_CONTENT_LENGTH, 102_400);
    let mut body = PACK.as_bytes().to_vec();
    body.resize(MAX_CONTENT_LENGTH + 1, b' ');
    let mut room = Vec::new();
    let actions = run(&[&body[..MAX_CONTENT_LENGTH], &body[MAX_CONTENT_LENGTH..]], None, &mut room);
    assert_eq!(
        actions.last(),
        Some(&MigrateAction::Finish(MigrateResult::Failed(MigrateError::TooLarge)))
    );
    assert!(actions.iter().all(|a| !matches!(a, MigrateAction::WritePack(_, _))));
    assert!(room.is_empty());
    let actions = run(&[&body], None, &mut room);
    assert_eq!(
        actions,
        vec![
            MigrateAction::Fetch("https://example.org/pack.json".to_string()),
            MigrateAction::ReadChunk,
            MigrateAction::Finish(MigrateResult::Failed(MigrateError::TooLarge)),
        ]
    );
    assert!(room.is_empty());
}

#[test]
fn declared_length_over_the_cap_is_refused() {
    let mut room = Vec::new();
    let actions = run(&[PACK.as_bytes()], Some(MAX_CONTENT_LENGTH as u64 + 1), &mut room);
    assert_eq!(
        actions,
        vec![
            MigrateAction::Fetch("https://example.org/pack.json".to_string()),
            MigrateAction::Finish(MigrateResult::Failed(MigrateError::TooLarge)),
        ]
    );
    assert!(room.is_empty());
}

#[test]
fn size_failure_is_final_and_reported() {
    assert_eq!(
        MigrateResult::Failed(MigrateError::TooLarge).outcome(),
        Outcome::Failed(causes(&["Maximum content length exceeded"]))
    );
}

#[test]
fn finished_migration_takes_no_more_events() {
    let (state, _) = Migration::start("u");
    let (state, _) = state.step(MigrateEvent::Response(Some(u64::MAX)));
    let (state, action) = state.step(MigrateEvent::Chunk(vec![1, 2, 3]));
    assert_eq!(action, MigrateAction::Nothing);
    let (state, action) = state.step(MigrateEvent::BodyEnd);
    assert_eq!(action, MigrateAction::Nothing);
    let (state, action) = state.step(MigrateEvent::PackState(false));
    assert_eq!(action, MigrateAction::Nothing);
    let (_, action) = state.step(MigrateEvent::PackWritten);
    assert_eq!(action, MigrateAction::Nothing);
}

#[test]
fn malformed_document_is_a_final_failure() {
    let mut room = Vec::new();
    let actions = run(&[b"{\"title\": 1}"], None, &mut room);
    let result = match actions.last() {
        Some(MigrateAction::Finish(result)) => result.clone(),
        other => panic!("not finished: {other:?}"),
    };
    let chain = match result.clone().outcome() {
        Outcome::Failed(chain) => chain,
        other => panic!("not failed: {other:?}"),
    };
    assert_eq!(chain.len(), 2);
    assert_eq!(chain[0], "Failed to parse maunium sticker pack");
    assert!(chain[1].contains("invalid type"), "{}", chain[1]);
    assert!(matches!(result, MigrateResult::Failed(MigrateError::Malformed(_))));
}

#[test]
fn network_and_store_failures_are_final_and_reported() {
    let (state, _) = Migration::start("u");
    let (_, action) = state.step(MigrateEvent::NetworkFailed(causes(&["connection refused"])));
    assert_eq!(
        action,
        MigrateAction::Finish(MigrateResult::Failed(MigrateError::Download(causes(&[
            "connection refused"
        ]))))
    );
    assert_eq!(
        MigrateResult::Failed(MigrateError::Download(causes(&["x"]))).outcome(),
        Outcome::Failed(causes(&["Failed to download maunium sticker pack", "x"]))
    );
    assert_eq!(
        MigrateResult::Failed(MigrateError::StateRead(causes(&["x"]))).outcome(),
        Outcome::Failed(causes(&[
            "Failed to check if sticker pack was already added to the room",
            "x"
        ]))
    );
    assert_eq!(
        MigrateResult::Failed(MigrateError::StateWrite(causes(&["x"]))).outcome(),
        Outcome::Failed(causes(&["Failed to add the sticker pack to the room", "x"]))
    );
    let (state, _) = Migration::start("u");
    let (state, _) = state.step(MigrateEvent::Response(None));
    let (_, action) = state.step(MigrateEvent::NetworkFailed(causes(&["reset"])));
    assert_eq!(
        action,
        MigrateAction::Finish(MigrateResult::Failed(MigrateError::Download(causes(&["reset"]))))
    );
}

#[test]
fn failed_write_of_the_pack_is_reported() {
    let (state, _) = Migration::start("u");
    let (state, _) = state.step(MigrateEvent::Response(None));
    let (state, _) = state.step(MigrateEvent::Chunk(PACK.as_bytes().to_vec()));
    let (state, _) = state.step(MigrateEvent::BodyEnd);
    let (state, action) = state.step(MigrateEvent::PackState(false));
    assert!(matches!(action, MigrateAction::WritePack(_, _)));
    let (_, action) = state.step(MigrateEvent::StateFailed(causes(&["M_FORBIDDEN"])));
    let result = MigrateResult::Failed(MigrateError::StateWrite(causes(&["M_FORBIDDEN"])));
    assert_eq!(action, MigrateAction::Finish(result.clone()));
    assert_eq!(
        result.outcome(),
        Outcome::Failed(causes(&["Failed to add the sticker pack to the room", "M_FORBIDDEN"]))
    );
}

#[test]
fn failed_room_state_ends_the_migration() {
    let (state, _) = Migration::start("u");
    let (state, _) = state.step(MigrateEvent::Response(None));
    let (state, _) = state.step(MigrateEvent::Chunk(PACK.as_bytes().to_vec()));
    let (state, action) = state.step(MigrateEvent::BodyEnd);
    assert_eq!(action, MigrateAction::ReadPack("mypackid".to_string()));
    let (_, action) = state.step(MigrateEvent::StateFailed(causes(&["M_FORBIDDEN"])));
    assert_eq!(
        action,
        MigrateAction::Finish(MigrateResult::Failed(MigrateError::StateRead(causes(&[
            "M_FORBIDDEN"
        ]))))
    );
    assert_eq!(
        MigrateError::StateRead(causes(&["M_FORBIDDEN"])).chain(),
        causes(&["Failed to check if sticker pack was already added to the room", "M_FORBIDDEN"])
    );
    assert_eq!(
        MigrateError::StateWrite(causes(&["M_FORBIDDEN"])).chain(),
        causes(&["Failed to add the sticker pack to the room", "M_FORBIDDEN"])
    );
    assert_eq!(
        MigrateError::Download(causes(&["a", "b"])).chain(),
        causes(&["Failed to download maunium sticker pack", "a", "b"])
    );
}

#[test]
fn request_headers() {
    assert_eq!(ACCEPT, "application/json");
    assert_eq!(USER_AGENT, "tg2mx_bot");
}
