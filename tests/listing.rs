use mikisayaka::batching::Batch;
use mikisayaka::listing::{
    in_listing_order, joined, listing_order, manga_page, page_footer, pager_action, pager_buttons,
    quote_page, ListedManga, PagerAction, PagerButtons,
};
use mikisayaka::models::Quote;

#[test]
fn newest_first_never_updated_last() {
    assert_eq!(listing_order(&vec![Some(5), None, Some(9), Some(5)]), vec![2, 0, 3, 1]);
    assert_eq!(listing_order(&vec![]), Vec::<usize>::new());
}

fn listed(title: &str, id: &str, t: Option<i64>) -> ListedManga {
    ListedManga { title: title.to_string(), id: id.to_string(), last_updated: t }
}

#[test]
fn manga_list_is_ordered_and_paged() {
    let entries = vec![listed("Dandadan", "def", None), listed("Frieren", "abc", Some(1700000000))];
    let sorted = in_listing_order(&entries);
    assert_eq!(sorted[0].title, "Frieren");
    assert_eq!(sorted[1].title, "Dandadan");
    let page = manga_page(&sorted, Batch { start: 0, len: 2 });
    assert_eq!(
        page,
        "1. [Frieren](https://mangadex.org/title/abc) (last updated: <t:1700000000:R>)\n\
         2. [Dandadan](https://mangadex.org/title/def)\n"
    );
    assert_eq!(manga_page(&sorted, Batch { start: 1, len: 1 }), "2. [Dandadan](https://mangadex.org/title/def)\n");
}

#[test]
fn quote_page_lists_aliases() {
    let quotes = vec![
        Quote { id: 1, title: "hello".to_string(), content: "c".to_string(), aliases: vec![] },
        Quote {
            id: 2,
            title: "bye".to_string(),
            content: "c".to_string(),
            aliases: vec!["cya".to_string(), "later".to_string()],
        },
    ];
    assert_eq!(quote_page(&quotes, Batch { start: 0, len: 2 }), "1. hello\n2. bye (cya, later)\n");
    assert_eq!(joined(&vec!["a".to_string()]), "a");
    assert_eq!(joined(&vec![]), "");
}

#[test]
fn pager_moves_within_pages() {
    let id = "77";
    assert_eq!(pager_action(0, 3, true, id, &"77prev".to_string()), PagerAction::Show(0));
    assert_eq!(pager_action(1, 3, true, id, &"77prev".to_string()), PagerAction::Show(0));
    assert_eq!(pager_action(1, 3, true, id, &"77next".to_string()), PagerAction::Show(2));
    assert_eq!(pager_action(2, 3, true, id, &"77next".to_string()), PagerAction::Show(2));
    assert_eq!(pager_action(1, 3, true, id, &"77first".to_string()), PagerAction::Show(0));
    assert_eq!(pager_action(0, 3, true, id, &"77last".to_string()), PagerAction::Show(2));
    assert_eq!(pager_action(0, 3, false, id, &"77last".to_string()), PagerAction::Reject);
    assert_eq!(pager_action(0, 3, true, id, &"78last".to_string()), PagerAction::Ignore);
}

#[test]
fn pager_buttons_and_footer() {
    assert_eq!(
        pager_buttons(0, 3),
        PagerButtons { first_disabled: true, prev_disabled: true, next_disabled: false, last_disabled: false }
    );
    assert_eq!(
        pager_buttons(2, 3),
        PagerButtons { first_disabled: false, prev_disabled: false, next_disabled: true, last_disabled: true }
    );
    assert_eq!(
        pager_buttons(0, 1),
        PagerButtons { first_disabled: true, prev_disabled: true, next_disabled: true, last_disabled: true }
    );
    assert_eq!(page_footer(1, 3), "page 2/3");
}
