use mikisayaka::chapters::{
    already_tracked_reply, anilist_url, or_unknown, publication_line, tags_line, tracked_reply,
};
use mikisayaka::commands::{quote_reply, role_reply, QuoteEvent, RoleEvent};
use mikisayaka::links::manga_link_id;
use mikisayaka::listing::split_aliases;

#[test]
fn aliases_are_split_on_comma_space() {
    assert_eq!(split_aliases("a, b, c"), vec!["a", "b", "c"]);
    assert_eq!(split_aliases("solo"), vec!["solo"]);
    assert_eq!(split_aliases(""), vec![""]);
    assert_eq!(split_aliases("a,, b"), vec!["a,", "b"]);
    assert_eq!(split_aliases("a, , b"), vec!["a", "", "b"]);
    assert_eq!(split_aliases("x,y"), vec!["x,y"]);
}

#[test]
fn manga_card_lines() {
    let tags = vec!["Action".to_string(), "Drama".to_string()];
    assert_eq!(tags_line(&Some("safe".to_string()), &tags), "**safe**, Action, Drama");
    assert_eq!(tags_line(&None, &tags), "Action, Drama");
    assert_eq!(publication_line(Some(2020), "ongoing"), "2020, ongoing");
    assert_eq!(publication_line(None, "completed"), "completed");
    assert_eq!(or_unknown(None), "unknown");
    assert_eq!(or_unknown(Some("shounen".to_string())), "shounen");
    assert_eq!(anilist_url("12"), "https://anilist.co/manga/12");
}

#[test]
fn tracking_replies() {
    assert_eq!(
        tracked_reply(false, "Frieren", "abc"),
        "added [**Frieren**](https://mangadex.org/title/abc) to the tracking list! you will be notified when a new chapter is uploaded."
    );
    assert!(tracked_reply(true, "Frieren", "abc").starts_with("*failed to update the mdlist."));
    assert!(tracked_reply(true, "Frieren", "abc").ends_with("\n\nadded [**Frieren**](https://mangadex.org/title/abc) to the tracking list! you will be notified when a new chapter is uploaded."));
    assert_eq!(already_tracked_reply("Frieren"), "**Frieren** is already in the tracking list.");
}

#[test]
fn quote_replies() {
    assert_eq!(quote_reply(QuoteEvent::Missing, "x", ""), "quote \"x\" does not exist.");
    assert_eq!(quote_reply(QuoteEvent::Duplicate, "x", ""), "quote with title \"x\" already exists.");
    assert_eq!(quote_reply(QuoteEvent::Added, "x", ""), "added quote \"x\".");
    assert_eq!(quote_reply(QuoteEvent::Deleted, "x", ""), "deleted quote \"x\".");
    assert_eq!(quote_reply(QuoteEvent::AliasDuplicate, "y", ""), "alias \"y\" already exists.");
    assert_eq!(quote_reply(QuoteEvent::AliasAdded, "y", "x"), "added alias \"y\" for quote \"x\".");
    assert_eq!(quote_reply(QuoteEvent::AliasDeleted, "y", ""), "deleted alias \"y\".");
    assert_eq!(quote_reply(QuoteEvent::AliasMissing, "y", ""), "alias \"y\" does not exist.");
}

#[test]
fn role_replies() {
    assert_eq!(role_reply(RoleEvent::AlreadyHeld, "5"), "you already have <@&5>!");
    assert_eq!(role_reply(RoleEvent::Added, "5"), "added <@&5> to your account.");
    assert_eq!(role_reply(RoleEvent::Removed, "5"), "i removed the role <@&5> for you!");
    assert_eq!(
        role_reply(RoleEvent::NotHeld, "5"),
        "you don't seem to have the role <@&5>...? how did you get here to begin with?"
    );
}

#[test]
fn manga_link_ids() {
    assert_eq!(
        manga_link_id("look https://mangadex.org/title/A96676E5-8AE2-425E-B549-7F15DD34A6D8/frieren"),
        Some("a96676e5-8ae2-425e-b549-7f15dd34a6d8".to_string())
    );
    assert_eq!(manga_link_id("https://mangadex.org/title/abc"), None);
    assert_eq!(manga_link_id("a96676e5-8ae2-425e-b549-7f15dd34a6d8"), None);
}
