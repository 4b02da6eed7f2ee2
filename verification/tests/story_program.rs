use tale_ledger::address::Address;
use tale_ledger::store::{Failure, StoreError};
use tale_ledger::tale_story::ledger::{
    create_episode, create_tale, delete_episode, delete_tale, like_episode, like_tale,
    update_episode, update_tale, CreateEpisode, CreateTale, DeleteEpisode, DeleteTale,
    LikeEpisode, LikeTale, StoryLedger, UpdateEpisode, UpdateTale,
};
use tale_ledger::tale_story::records::{
    AppError, Episode, EpisodeStatus, Tale, TaleStatus, EPISODE_ACCOUNT_SPACE, TALE_ACCOUNT_SPACE,
};

fn addr(tag: u8) -> Address {
    Address::new([tag; 32])
}

fn author() -> Address {
    addr(1)
}

fn s(text: &str) -> String {
    text.to_string()
}

fn long(n: usize) -> String {
    "x".repeat(n)
}

fn new_tale(id: &str, title: &str, cid: &str, genre: &str, cover: &str, thumb: &str, status: u8) -> Result<Tale, AppError> {
    Tale::new(
        author(),
        254,
        10,
        s(id),
        s(title),
        s(cid),
        s(genre),
        s(cover),
        s(thumb),
        status,
        Some(addr(7)),
        true,
        false,
        true,
    )
}

fn new_episode(
    seed: &str,
    name: &str,
    cid: &str,
    thumb: &str,
    set: &str,
    machine: &str,
    status: u8,
    from: Option<i64>,
    until: Option<i64>,
) -> Result<Episode, AppError> {
    Episode::new(
        author(),
        addr(9),
        250,
        20,
        s(seed),
        s(name),
        s(cid),
        s(thumb),
        s(set),
        4,
        status,
        true,
        s(machine),
        from,
        until,
    )
}

fn ledger_with_tale() -> (StoryLedger, Address) {
    let mut ledger = StoryLedger::new(addr(200));
    let tale_account = ledger.tale_address("tale-1").unwrap().0;
    let ctx = CreateTale { tale_account, author: author() };
    create_tale(
        &mut ledger,
        &ctx,
        10,
        s("tale-1"),
        s("Title"),
        s("cid"),
        s("genre"),
        s("cover"),
        s("thumb"),
        0,
        None,
        false,
        true,
        false,
    )
    .unwrap();
    (ledger, tale_account)
}

fn ledger_with_episode() -> (StoryLedger, Address, Address) {
    let (mut ledger, tale) = ledger_with_tale();
    let episode_account = ledger.episode_address(&tale, "ep-1").unwrap().0;
    let ctx = CreateEpisode { episode_account, parent_tale_account: tale, author: author() };
    create_episode(
        &mut ledger,
        &ctx,
        20,
        s("ep-1"),
        s("Episode one"),
        s("cid"),
        s("thumb"),
        s("set"),
        1,
        2,
        true,
        s("machine"),
        Some(100),
        Some(200),
    )
    .unwrap();
    (ledger, tale, episode_account)
}

#[test]
fn story_tale_new_keeps_every_field() {
    let tale = new_tale("tale-1", "Title", "cid", "genre", "cover", "thumb", 1).unwrap();
    assert_eq!(
        tale,
        Tale {
            author: author(),
            tale_id: s("tale-1"),
            title: s("Title"),
            content_cid: s("cid"),
            genre: s("genre"),
            cover_image_cid: s("cover"),
            thumbnail_cid: s("thumb"),
            status: 1,
            timestamp: 10,
            bump: 254,
            candy_machine_address: Some(addr(7)),
            is_governance_token_gated: true,
            is_early_access_token_gated: false,
            is_real_world_asset_gated: true,
            like_count: 0,
        }
    );
}

#[test]
fn story_tale_new_checks_the_fields_in_order() {
    let l = long(101);
    assert_eq!(new_tale(&long(33), &l, &l, &l, &l, &l, 9), Err(AppError::EpisodeIdSeedTooLong));
    assert_eq!(new_tale("t", &l, &l, &l, &l, &l, 9), Err(AppError::TitleTooLong));
    assert_eq!(new_tale("t", "t", &long(91), &l, &l, &l, 9), Err(AppError::ContentCidTooLong));
    assert_eq!(new_tale("t", "t", &long(90), &l, &l, &l, 9), Err(AppError::GenreTooLong));
    assert_eq!(new_tale("t", "t", "c", "g", &long(65), &l, 9), Err(AppError::CoverImageCidTooLong));
    assert_eq!(new_tale("t", "t", "c", "g", "v", &long(65), 9), Err(AppError::ThumbnailCidTooLong));
    assert_eq!(new_tale("t", "t", "c", "g", "v", &long(64), 3), Err(AppError::InvalidStatus));
    assert!(new_tale(&long(32), &long(100), &long(90), &long(30), &long(64), &long(64), 2).is_ok());
}

#[test]
fn story_tale_update_keeps_the_likes() {
    let mut tale = new_tale("tale-1", "Title", "cid", "genre", "cover", "thumb", 0).unwrap();
    assert_eq!(tale.like(), Ok(()));
    assert_eq!(tale.like(), Ok(()));
    let before = tale.clone();
    let refused = tale.update(99, s("T"), s("c"), s("g"), s("v"), long(65), 1, None, false, false, false);
    assert_eq!(refused, Err(AppError::ThumbnailCidTooLong));
    assert_eq!(tale, before);
    assert_eq!(
        tale.update(99, s("T2"), s("c2"), s("g2"), s("v2"), s("h2"), 2, None, false, true, false),
        Ok(())
    );
    assert_eq!(
        tale,
        Tale {
            title: s("T2"),
            content_cid: s("c2"),
            genre: s("g2"),
            cover_image_cid: s("v2"),
            thumbnail_cid: s("h2"),
            status: 2,
            timestamp: 99,
            candy_machine_address: None,
            is_governance_token_gated: false,
            is_early_access_token_gated: true,
            is_real_world_asset_gated: false,
            ..before
        }
    );
    assert_eq!(tale.like_count, 2);
}

#[test]
fn story_like_stops_at_the_largest_count() {
    let mut tale = new_tale("t", "t", "c", "g", "v", "h", 0).unwrap();
    tale.like_count = u64::MAX - 1;
    assert_eq!(tale.like(), Ok(()));
    assert_eq!(tale.like_count, u64::MAX);
    assert_eq!(tale.like(), Err(AppError::LikeCountOverflow));
    assert_eq!(tale.like_count, u64::MAX);
    let mut episode = new_episode("e", "n", "c", "h", "s", "m", 0, None, None).unwrap();
    episode.like_count = u64::MAX;
    assert_eq!(episode.like(), Err(AppError::LikeCountOverflow));
    assert_eq!(episode.like_count, u64::MAX);
    episode.like_count = 41;
    assert_eq!(episode.like(), Ok(()));
    assert_eq!(episode.like_count, 42);
}

#[test]
fn story_episode_new_checks_the_fields_in_order() {
    let l = long(101);
    let bad = (Some(5), Some(5));
    assert_eq!(
        new_episode(&long(33), &l, &l, &l, &l, &l, 9, bad.0, bad.1).err(),
        Some(AppError::EpisodeIdSeedTooLong)
    );
    assert_eq!(new_episode("e", &l, &l, &l, &l, &l, 9, bad.0, bad.1).err(), Some(AppError::EpisodeNameTooLong));
    assert_eq!(new_episode("e", "n", &long(65), &l, &l, &l, 9, bad.0, bad.1).err(), Some(AppError::ContentCidTooLong));
    assert_eq!(
        new_episode("e", "n", "c", &long(65), &l, &l, 9, bad.0, bad.1).err(),
        Some(AppError::EpisodeThumbnailCidTooLong)
    );
    assert_eq!(new_episode("e", "n", "c", "h", &long(31), &l, 9, bad.0, bad.1).err(), Some(AppError::ImageSetIdTooLong));
    assert_eq!(
        new_episode("e", "n", "c", "h", "s", &long(45), 9, bad.0, bad.1).err(),
        Some(AppError::CandyMachineIdTooLong)
    );
    assert_eq!(new_episode("e", "n", "c", "h", "s", "m", 4, bad.0, bad.1).err(), Some(AppError::InvalidStatus));
    assert_eq!(new_episode("e", "n", "c", "h", "s", "m", 3, bad.0, bad.1).err(), Some(AppError::InvalidScheduleTimes));
    assert_eq!(
        new_episode("e", "n", "c", "h", "s", "m", 3, Some(6), Some(5)).err(),
        Some(AppError::InvalidScheduleTimes)
    );
    assert!(new_episode("e", "n", "c", "h", "s", "m", 3, Some(4), Some(5)).is_ok());
    assert!(new_episode("e", "n", "c", "h", "s", "m", 3, Some(9), None).is_ok());
    assert!(new_episode("e", "n", "c", "h", "s", "m", 3, None, Some(1)).is_ok());
    let full = new_episode(&long(32), &long(100), &long(64), &long(64), &long(30), &long(44), 0, None, None)
        .unwrap();
    assert_eq!(full.like_count, 0);
    assert_eq!(full.order, 4);
    assert_eq!(full.publish_at_time, None);
}

#[test]
fn story_episode_update_keeps_seed_author_and_likes() {
    let mut episode = new_episode("e", "n", "c", "h", "s", "m", 0, Some(1), Some(2)).unwrap();
    episode.like().unwrap();
    let before = episode.clone();
    let refused = episode.update(30, s("n2"), s("c2"), s("h2"), s("s2"), 2, 1, true, s("m2"), Some(3), Some(3));
    assert_eq!(refused, Err(AppError::InvalidScheduleTimes));
    assert_eq!(episode, before);
    assert_eq!(
        episode.update(30, s("n2"), s("c2"), s("h2"), s("s2"), 2, 3, false, s("m2"), None, Some(3)),
        Ok(())
    );
    assert_eq!(
        episode,
        Episode {
            episode_name: s("n2"),
            content_cid: s("c2"),
            thumbnail_cid: s("h2"),
            image_set_id: s("s2"),
            order: 2,
            status: 3,
            is_nft: false,
            candy_machine_id: s(""),
            timestamp: 30,
            publish_at_time: None,
            unpublish_at_time: Some(3),
            ..before
        }
    );
}

#[test]
fn story_status_ordinals_and_spaces() {
    assert_eq!(TaleStatus::Draft.ordinal(), 0);
    assert_eq!(TaleStatus::Published.ordinal(), 1);
    assert_eq!(TaleStatus::Archived.ordinal(), 2);
    assert_eq!(EpisodeStatus::Draft.ordinal(), 0);
    assert_eq!(EpisodeStatus::Published.ordinal(), 1);
    assert_eq!(EpisodeStatus::Scheduled.ordinal(), 2);
    assert_eq!(EpisodeStatus::Archived.ordinal(), 3);
    assert_eq!(TALE_ACCOUNT_SPACE, 536);
    assert_eq!(EPISODE_ACCOUNT_SPACE, 528);
}

#[test]
fn story_create_update_and_delete_a_tale() {
    let (mut ledger, tale) = ledger_with_tale();
    let stored = ledger.tales.load(&tale).unwrap();
    assert_eq!(stored.bump, ledger.tale_address("tale-1").unwrap().1);
    assert_eq!(stored.thumbnail_cid, "thumb");
    assert_eq!(stored.like_count, 0);
    assert!(stored.is_early_access_token_gated);
    assert_eq!(ledger.tales.space_of(&tale), Ok(TALE_ACCOUNT_SPACE));

    let stranger = UpdateTale { tale_account: tale, author: addr(2) };
    let refused = update_tale(
        &mut ledger, &stranger, 30, s("T"), s("c"), s("g"), s("v"), s("h"), 1, None, false, false, false,
    );
    assert_eq!(refused, Err(Failure::Rule(AppError::Unauthorized)));
    let ctx = UpdateTale { tale_account: tale, author: author() };
    let refused = update_tale(
        &mut ledger, &ctx, 30, s("T"), long(91), s("g"), s("v"), s("h"), 1, None, false, false, false,
    );
    assert_eq!(refused, Err(Failure::Rule(AppError::ContentCidTooLong)));
    assert_eq!(
        update_tale(
            &mut ledger, &ctx, 30, s("T"), long(90), s("g"), s("v"), s("h"), 1, Some(addr(3)), true, true, true,
        ),
        Ok(())
    );
    let stored = ledger.tales.load(&tale).unwrap();
    assert_eq!(stored.content_cid, long(90));
    assert_eq!(stored.candy_machine_address, Some(addr(3)));
    assert_eq!(stored.status, 1);

    let del = DeleteTale { tale_account: tale, author: author() };
    assert_eq!(delete_tale(&mut ledger, &del).err(), Some(Failure::Rule(AppError::CannotDeletePublished)));
    update_tale(&mut ledger, &ctx, 31, s("T"), s("c"), s("g"), s("v"), s("h"), 2, None, false, false, false)
        .unwrap();
    let release = delete_tale(&mut ledger, &del).unwrap();
    assert_eq!(release.holder, author());
    assert_eq!(release.space, TALE_ACCOUNT_SPACE);
    assert_eq!(delete_tale(&mut ledger, &del).err(), Some(Failure::Store(StoreError::RecordNotFound)));
}

#[test]
fn story_create_update_and_delete_an_episode() {
    let (mut ledger, tale, episode) = ledger_with_episode();
    let stored = ledger.episodes.load(&episode).unwrap();
    assert_eq!(stored.parent_tale, tale);
    assert_eq!(stored.status, 2);
    assert_eq!(stored.publish_at_time, Some(100));
    assert_eq!(stored.unpublish_at_time, Some(200));
    assert_eq!(stored.bump, ledger.episode_address(&tale, "ep-1").unwrap().1);

    let other = ledger.episode_address(&tale, "ep-2").unwrap().0;
    let stranger = CreateEpisode { episode_account: other, parent_tale_account: tale, author: addr(2) };
    let refused = create_episode(
        &mut ledger, &stranger, 20, s("ep-2"), s("n"), s("c"), s("h"), s("s"), 1, 0, false, s(""), None, None,
    );
    assert_eq!(refused.err(), Some(Failure::Rule(AppError::Unauthorized)));

    let ctx = UpdateEpisode { episode_account: episode, author: author() };
    let refused = update_episode(
        &mut ledger, &ctx, 30, s("n"), s("c"), s("h"), s("s"), 1, 4, true, s("m"), None, None,
    );
    assert_eq!(refused, Err(Failure::Rule(AppError::InvalidStatus)));
    assert_eq!(
        update_episode(&mut ledger, &ctx, 30, s("n2"), s("c"), s("h"), s("s"), 5, 3, true, s("m"), None, None),
        Ok(())
    );
    assert_eq!(ledger.episodes.load(&episode).unwrap().order, 5);
    assert_eq!(ledger.episodes.load(&episode).unwrap().publish_at_time, None);

    let stranger = DeleteEpisode { episode_account: episode, author: addr(2) };
    assert_eq!(delete_episode(&mut ledger, &stranger).err(), Some(Failure::Rule(AppError::Unauthorized)));
    let release = delete_episode(&mut ledger, &DeleteEpisode { episode_account: episode, author: author() })
        .unwrap();
    assert_eq!(release.space, EPISODE_ACCOUNT_SPACE);
    assert!(!ledger.episodes.contains(&episode));
}

#[test]
fn story_anyone_may_like() {
    let (mut ledger, tale, episode) = ledger_with_episode();
    for reader in [2u8, 3, 2] {
        assert_eq!(like_tale(&mut ledger, &LikeTale { tale_account: tale, user: addr(reader) }), Ok(()));
    }
    assert_eq!(like_episode(&mut ledger, &LikeEpisode { episode_account: episode, user: addr(4) }), Ok(()));
    assert_eq!(ledger.tales.load(&tale).unwrap().like_count, 3);
    assert_eq!(ledger.tales.load(&tale).unwrap().timestamp, 10);
    assert_eq!(ledger.episodes.load(&episode).unwrap().like_count, 1);
    assert_eq!(
        like_tale(&mut ledger, &LikeTale { tale_account: episode, user: addr(2) }),
        Err(Failure::Store(StoreError::RecordNotFound))
    );
    assert_eq!(
        like_episode(&mut ledger, &LikeEpisode { episode_account: tale, user: addr(2) }),
        Err(Failure::Store(StoreError::RecordNotFound))
    );
}

#[test]
fn story_errors_have_their_messages() {
    assert_eq!(AppError::TitleTooLong.message(), "Title is too long.");
    assert_eq!(AppError::ContentCidTooLong.message(), "Content CID is too long.");
    assert_eq!(AppError::GenreTooLong.message(), "Genre is too long.");
    assert_eq!(AppError::CoverImageCidTooLong.message(), "Cover image CID is too long.");
    assert_eq!(AppError::ThumbnailCidTooLong.message(), "Thumbnail CID is too long.");
    assert_eq!(AppError::Unauthorized.message(), "Unauthorized action.");
    assert_eq!(AppError::InvalidStatus.message(), "Invalid status value.");
    assert_eq!(
        AppError::CannotDeletePublished.message(),
        "Cannot delete a published tale directly. Set to archived first."
    );
    assert_eq!(AppError::EpisodeIdSeedTooLong.message(), "Episode ID (seed) is too long.");
    assert_eq!(AppError::EpisodeNameTooLong.message(), "Episode name is too long.");
    assert_eq!(AppError::ImageSetIdTooLong.message(), "Image Set ID is too long.");
    assert_eq!(AppError::EpisodeThumbnailCidTooLong.message(), "Episode Thumbnail CID is too long.");
    assert_eq!(AppError::CandyMachineIdTooLong.message(), "Candy Machine ID is too long.");
    assert_eq!(
        AppError::InvalidScheduleTimes.message(),
        "Invalid schedule times: Publish time must be before unpublish time if both are set."
    );
    assert_eq!(AppError::LikeCountOverflow.message(), "Like count overflow.");
}

#[test]
fn story_like_checks_the_address() {
    let (mut ledger, tale, episode) = ledger_with_episode();
    let moved_tale = ledger.tales.load(&tale).unwrap().clone();
    let moved_episode = ledger.episodes.load(&episode).unwrap().clone();
    ledger.tales.create_at(addr(8), TALE_ACCOUNT_SPACE, moved_tale).unwrap();
    ledger.episodes.create_at(addr(9), EPISODE_ACCOUNT_SPACE, moved_episode).unwrap();
    assert_eq!(
        like_tale(&mut ledger, &LikeTale { tale_account: addr(8), user: addr(2) }),
        Err(Failure::Store(StoreError::AddressMismatch))
    );
    assert_eq!(
        like_episode(&mut ledger, &LikeEpisode { episode_account: addr(9), user: addr(2) }),
        Err(Failure::Store(StoreError::AddressMismatch))
    );
    assert_eq!(ledger.tales.load(&addr(8)).unwrap().like_count, 0);
    assert_eq!(ledger.episodes.load(&addr(9)).unwrap().like_count, 0);
    assert_eq!(like_tale(&mut ledger, &LikeTale { tale_account: tale, user: addr(2) }), Ok(()));
}
