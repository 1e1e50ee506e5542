use mikisayaka::claims::{claim_report, cookie_value, daily_reply, normalized_cookie, ClaimOutcome};
use mikisayaka::commands::{
    get_version, held_roles, itl, itl_link, quartatrice, quartatrice_link,
    recalled_title, role_list, route_message, MessageFacts, Routes,
};
use mikisayaka::links::{
    manga_id_from_input, pixiv_mirror, songlink_request_url, spotify_link, spotify_reply,
    tiktok_mirror, twitter_mirror, youtube_link, youtube_reply, MangaInputError,
};
use mikisayaka::models::{
    HoyolabAccount, LinkByPlatform, LinkByPlatformInner, SonglinkResponse, ZenlessReturnCode,
};

fn account(user: &str) -> HoyolabAccount {
    HoyolabAccount { id: 1, user_id: user.to_string(), hoyolab_token: "t".to_string() }
}

#[test]
fn claim_report_lists_each_answered_account() {
    let accounts = vec![account("11"), account("22"), account("33"), account("44")];
    let outcomes = vec![
        ClaimOutcome::Answered(ZenlessReturnCode::Success),
        ClaimOutcome::RequestFailed,
        ClaimOutcome::Answered(ZenlessReturnCode::AlreadyClaimed),
        ClaimOutcome::Answered(ZenlessReturnCode::AuthInvalid),
    ];
    let r = claim_report(&accounts, &outcomes).unwrap();
    assert_eq!(
        r,
        "today's daily claim status:\n\
         1. <@11>: daily reward claimed successfully.\
         3. <@33>: you've already claimed your daily reward for today.\
         4. <@44>: an error occurred while claiming your daily reward. please try claiming manually using `s>zzz daily`."
    );
}

#[test]
fn claim_report_without_accounts_is_none() {
    assert_eq!(claim_report(&vec![], &vec![]), None);
}

#[test]
fn daily_reply_variants() {
    assert_eq!(
        daily_reply(ZenlessReturnCode::Success, Some(12), "October"),
        "successfully checked in for today!~ you have checked in for **12** days during October!"
    );
    assert_eq!(daily_reply(ZenlessReturnCode::Success, None, "October"), "successfully checked in for today!~");
    assert_eq!(
        daily_reply(ZenlessReturnCode::AlreadyClaimed, Some(3), "May"),
        "you have already checked in for today! you have checked in for **3** days during May!"
    );
    assert_eq!(daily_reply(ZenlessReturnCode::AlreadyClaimed, None, "May"), "you have already checked in for today!");
    assert_eq!(
        daily_reply(ZenlessReturnCode::RateLimited, Some(3), "May"),
        "something wrong happened while checking in."
    );
}

#[test]
fn cookie_values_are_read() {
    let c = "mi18nLang=en-us; ltoken_v2=v2_ABC; ltuid_v2=12345; other=x";
    assert_eq!(cookie_value(c, "ltoken_v2"), Some("v2_ABC".to_string()));
    assert_eq!(cookie_value(c, "ltuid_v2"), Some("12345".to_string()));
    assert_eq!(cookie_value(c, "missing"), None);
    assert_eq!(normalized_cookie(c), Some("ltoken_v2=v2_ABC; ltuid_v2=12345".to_string()));
    assert_eq!(normalized_cookie("ltoken_v2=only"), None);
}

#[test]
fn social_links_are_mirrored() {
    assert_eq!(
        twitter_mirror("look https://x.com/user_1/status/12345 wow"),
        Some("https://fixupx.com/user_1/status/12345".to_string())
    );
    assert_eq!(
        twitter_mirror("https://www.twitter.com/a.b-c/status/9"),
        Some("https://fixupx.com/a.b-c/status/9".to_string())
    );
    assert_eq!(twitter_mirror("no links here"), None);
    assert_eq!(tiktok_mirror("https://vt.tiktok.com/ZSabc123/"), Some("https://vxtiktok.com/ZSabc123".to_string()));
    assert_eq!(tiktok_mirror("https://www.tiktok.com/@x"), None);
}

#[test]
fn pixiv_links_are_mirrored() {
    assert_eq!(
        pixiv_mirror("https://www.pixiv.net/en/artworks/123456"),
        Some("https://phixiv.net/en/artworks/123456".to_string())
    );
    assert_eq!(
        pixiv_mirror("see https://www.pixiv.net/artworks/123/2"),
        Some("https://phixiv.net/artworks/123/2".to_string())
    );
    assert_eq!(pixiv_mirror("https://www.pixiv.net/i/999"), Some("https://phixiv.net/i/999".to_string()));
    assert_eq!(
        pixiv_mirror("https://pixiv.net/member_illust.php?illust_id=42"),
        Some("https://phixiv.net/member_illust.php?illust_id=42".to_string())
    );
    assert_eq!(pixiv_mirror("https://example.com"), None);
}

#[test]
fn music_links_are_found_and_looked_up() {
    assert_eq!(
        youtube_link("check https://www.youtube.com/watch?v=dQw4w9WgXcQ now"),
        Some("https://www.youtube.com/watch?v=dQw4w9WgXcQ".to_string())
    );
    assert_eq!(
        spotify_link("https://open.spotify.com/track/4uLU6hMCjMI75M1A2tKUQC?si=x"),
        Some("https://open.spotify.com/track/4uLU6hMCjMI75M1A2tKUQC?si=x".to_string())
    );
    assert_eq!(youtube_link("nothing"), None);
    assert_eq!(
        songlink_request_url("https://youtu.be/abcdefghijk"),
        "https://api.song.link/v1-alpha.1/links?url=https%3A%2F%2Fyoutu.be%2Fabcdefghijk&userCountry=JP"
    );
}

#[test]
fn songlink_replies() {
    let found = SonglinkResponse {
        links_by_platform: LinkByPlatform {
            spotify: Some(LinkByPlatformInner { url: "https://s/1".to_string(), entity_unique_id: "e".to_string() }),
            youtube_music: None,
        },
    };
    assert_eq!(spotify_reply(&found), Some("here's your spotify link: https://s/1".to_string()));
    assert_eq!(youtube_reply(&found), None);
}

#[test]
fn manga_ids_are_read_from_input() {
    assert_eq!(
        manga_id_from_input("https://mangadex.org/title/a96676e5-8ae2-425e-b549-7f15dd34a6d8/frieren"),
        Ok("a96676e5-8ae2-425e-b549-7f15dd34a6d8".to_string())
    );
    assert_eq!(
        manga_id_from_input("A96676E58AE2425EB5497F15DD34A6D8"),
        Ok("a96676e5-8ae2-425e-b549-7f15dd34a6d8".to_string())
    );
    assert_eq!(manga_id_from_input("https://mangadex.org/title/abc-123"), Err(MangaInputError::InvalidUuid));
    assert_eq!(manga_id_from_input("hello"), Err(MangaInputError::InvalidLink));
    assert_eq!(MangaInputError::InvalidUuid.message(), "invalid uuid supplied.");
    assert_eq!(MangaInputError::InvalidLink.message(), "invalid link supplied.");
}

fn facts() -> MessageFacts {
    MessageFacts {
        from_bot: false,
        catalog_ready: true,
        manga_channel_configured: true,
        in_music_channel: false,
        in_manga_channel: false,
    }
}

#[test]
fn messages_are_routed() {
    let none = Routes { music: false, manga: false, mirrors: false, quote: false };
    assert_eq!(route_message(MessageFacts { from_bot: true, ..facts() }, "hi"), none);
    assert_eq!(route_message(facts(), "s>help"), none);
    assert_eq!(route_message(MessageFacts { catalog_ready: false, ..facts() }, "hi"), none);
    assert_eq!(
        route_message(facts(), "... hello"),
        Routes { music: false, manga: false, mirrors: true, quote: true }
    );
    assert_eq!(
        route_message(MessageFacts { in_music_channel: true, ..facts() }, "x"),
        Routes { music: true, manga: false, mirrors: true, quote: false }
    );
}

#[test]
fn quote_recall_texts() {
    assert_eq!(recalled_title("... ... hello"), "hello");
    assert_eq!(recalled_title("... hi there"), "hi there");
}

#[test]
fn random_links() {
    assert_eq!(quartatrice_link(200), "https://www.youtube.com/watch?v=mdWEHMxQqn8");
    assert_eq!(quartatrice_link(127), "https://www.youtube.com/watch?v=a2qUNdQySgw");
    assert_eq!(itl_link(128), "https://www.youtube.com/watch?v=MKuicDvnaFc");
    assert_eq!(itl_link(0), "https://www.youtube.com/watch?v=zqH9qgVNzHI");
    let q = quartatrice();
    assert!(q == quartatrice_link(0) || q == quartatrice_link(255));
    let i = itl();
    assert!(i == itl_link(0) || i == itl_link(255));
}

#[test]
fn version_line() {
    assert_eq!(
        get_version("1.2.3", "abc"),
        "v1.2.3 - There's No Way I'll Ever Regret It [[`abc`](https://github.com/j1nxie/mikisayaka/commit/abc)]"
    );
    assert_eq!(get_version("not a version", "abc"), "v0.0.0-unknown - No Version Name");
}

#[test]
fn roles_held_and_listed() {
    assert_eq!(held_roles(&vec![1, 2, 3], &vec![3, 1, 9]), vec![1, 3]);
    assert_eq!(held_roles(&vec![1, 2], &vec![]), Vec::<u64>::new());
    assert_eq!(role_list(&vec!["11".to_string(), "22".to_string()]), "0. <@&11>\n1. <@&22>\n");
}
