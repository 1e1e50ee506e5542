use mikisayaka::chapters::{
    chapter_batch_header, chapter_heading, chapter_image_url, chapter_observation, chapter_tick,
    chapter_url, display_title, manga_image_url, manga_url, ChapterFetch, ChapterInfo, Manga,
};
use mikisayaka::gas::{gas_tick, plain_price_text, price_change_text, GasPrice};
use mikisayaka::tracker::Fetched;

fn manga(id: i64, dex: &str, last_updated: i64, last_chapter_date: Option<i64>) -> Manga {
    Manga { id, manga_dex_id: dex.to_string(), last_updated, last_chapter_date }
}

fn chapter(number: Option<&str>, publish_at: Option<i64>) -> ChapterInfo {
    ChapterInfo {
        id: "c-1".to_string(),
        chapter: number.map(|s| s.to_string()),
        volume: None,
        title: None,
        publish_at,
    }
}

#[test]
fn chapter_tick_reports_new_chapters_and_skips_failures() {
    let list = vec![
        manga(1, "aaa", 100, Some(50)),
        manga(2, "bbb", 100, Some(50)),
        manga(3, "ccc", 100, Some(80)),
        manga(4, "ddd", 100, None),
    ];
    let fetches = vec![
        ChapterFetch::Failed,
        ChapterFetch::Latest(Some(chapter(Some("12"), Some(70)))),
        ChapterFetch::Latest(None),
        ChapterFetch::Latest(Some(chapter(Some("1"), Some(60)))),
    ];
    let t = chapter_tick(&list, &fetches, 500);
    assert_eq!(t.changed, vec![1, 3]);
    assert_eq!(t.persist, vec![false, true, true, true]);
    assert_eq!(t.manga[0], manga(1, "aaa", 100, Some(50)));
    assert_eq!(t.manga[1], manga(2, "bbb", 500, Some(70)));
    assert_eq!(t.manga[2], manga(3, "ccc", 500, Some(80)));
    assert_eq!(t.manga[3], manga(4, "ddd", 500, Some(60)));
}

#[test]
fn unnumbered_chapter_observes_nothing() {
    let f = ChapterFetch::Latest(Some(chapter(None, Some(70))));
    assert_eq!(chapter_observation(&f), Fetched::Absent);
    let g = ChapterFetch::Latest(Some(chapter(Some("3"), Some(70))));
    assert_eq!(chapter_observation(&g), Fetched::Observed(70));
}

#[test]
fn chapter_heading_forms() {
    let h = chapter_heading(&Some("3".to_string()), "12", &Some("The Return".to_string()));
    assert_eq!(h, "Vol. 3, Ch. 12 - The Return");
    assert_eq!(chapter_heading(&None, "5", &None), "Ch. 5");
    assert_eq!(chapter_heading(&None, "5.5", &Some("Extra".to_string())), "Ch. 5.5 - Extra");
}

#[test]
fn batch_header_pluralizes() {
    assert_eq!(chapter_batch_header(1), "A new chapter is out!");
    assert_eq!(chapter_batch_header(2), "New chapters are out!");
    assert_eq!(chapter_batch_header(10), "New chapters are out!");
}

#[test]
fn title_falls_back_in_order() {
    let en = Some("Frieren".to_string());
    let ro = Some("Sousou no Frieren".to_string());
    let ja = Some("葬送のフリーレン".to_string());
    assert_eq!(display_title(en.clone(), ro.clone(), ja.clone()), en);
    assert_eq!(display_title(None, ro.clone(), ja.clone()), ro);
    assert_eq!(display_title(None, None, ja.clone()), ja);
    assert_eq!(display_title(None, None, None), None);
}

#[test]
fn catalog_urls() {
    assert_eq!(chapter_url("x1"), "https://mangadex.org/chapter/x1");
    assert_eq!(chapter_image_url("x1"), "https://og.mangadex.org/og-image/chapter/x1");
    assert_eq!(manga_url("m9"), "https://mangadex.org/title/m9");
    assert_eq!(manga_image_url("m9"), "https://og.mangadex.org/og-image/manga/m9");
}

fn gas(id: &str, name: &str, z1: i64, z2: i64, lm: i64) -> GasPrice {
    GasPrice { id: id.to_string(), gas_name: name.to_string(), zone1_price: z1, zone2_price: z2, last_modified: lm }
}

#[test]
fn gas_update_is_reported_with_differences() {
    let current = vec![gas("A", "RON 95", 20000, 21000, 100)];
    let fetched = vec![gas("A", "RON 95", 20500, 20800, 200)];
    let relevant = vec!["A".to_string()];
    let t = gas_tick(&current, &fetched, &relevant, true);
    assert_eq!(t.writes, vec![0]);
    assert_eq!(t.updates, vec![0]);
    assert!(t.send);
    assert_eq!(t.fields.len(), 1);
    assert_eq!(t.fields[0].name, "<a:ARROW_IS_UP_ANIM:1360156587611783219> RON 95");
    assert_eq!(
        t.fields[0].value,
        "- Vùng 1: 20.500đ/lít (+500đ/lít)\n- Vùng 2: 20.800đ/lít (-200đ/lít)"
    );
}

#[test]
fn gas_price_drop_points_down() {
    let current = vec![gas("A", "E5", 19000, 19500, 100)];
    let fetched = vec![gas("A", "E5", 18000, 19500, 101)];
    let relevant = vec!["A".to_string()];
    let t = gas_tick(&current, &fetched, &relevant, true);
    assert_eq!(t.fields[0].name, "<a:ARROW_IS_DOWN_ANIM:1360156568137502771> E5");
    assert_eq!(t.fields[0].value, "- Vùng 1: 18.000đ/lít (-1.000đ/lít)\n- Vùng 2: 19.500đ/lít (0đ/lít)");
}

#[test]
fn gas_first_sight_is_recorded_silently() {
    let current: Vec<GasPrice> = vec![];
    let fetched = vec![gas("B", "DO", 1234567, 0, 5)];
    let relevant = vec!["B".to_string()];
    let t = gas_tick(&current, &fetched, &relevant, true);
    assert_eq!(t.writes, vec![0]);
    assert!(t.updates.is_empty());
    assert!(t.fields.is_empty());
    assert!(!t.send);
}

#[test]
fn gas_first_sight_gets_no_field_beside_a_change() {
    let current = vec![gas("A", "RON 95", 20000, 21000, 100)];
    let fetched = vec![gas("A", "RON 95", 20500, 20800, 200), gas("B", "DO", 19000, 19100, 200)];
    let relevant = vec!["A".to_string(), "B".to_string()];
    let t = gas_tick(&current, &fetched, &relevant, true);
    assert_eq!(t.writes, vec![0, 1]);
    assert_eq!(t.updates, vec![0]);
    assert_eq!(t.fields.len(), 1);
    assert_eq!(t.fields[0].name, "<a:ARROW_IS_UP_ANIM:1360156587611783219> RON 95");
    assert!(t.send);
}

#[test]
fn gas_stale_and_unfollowed_are_skipped() {
    let current = vec![gas("A", "RON 95", 20000, 21000, 100)];
    let fetched = vec![gas("A", "RON 95", 1, 1, 100), gas("Z", "Other", 5, 5, 999)];
    let relevant = vec!["A".to_string()];
    let t = gas_tick(&current, &fetched, &relevant, true);
    assert!(t.writes.is_empty());
    assert!(t.fields.is_empty());
    assert!(!t.send);
}

#[test]
fn gas_without_destination_is_not_sent() {
    let current = vec![gas("A", "RON 95", 20000, 21000, 100)];
    let fetched = vec![gas("A", "RON 95", 20500, 20800, 200)];
    let relevant = vec!["A".to_string()];
    let t = gas_tick(&current, &fetched, &relevant, false);
    assert_eq!(t.writes, vec![0]);
    assert!(!t.send);
}

#[test]
fn price_texts() {
    assert_eq!(plain_price_text(25000, 24500), "- Vùng 1: 25.000đ/lít\n- Vùng 2: 24.500đ/lít");
    assert_eq!(plain_price_text(1234567, 0), "- Vùng 1: 1.234.567đ/lít\n- Vùng 2: 0đ/lít");
    assert_eq!(plain_price_text(-1234, 100), "- Vùng 1: -1.234đ/lít\n- Vùng 2: 100đ/lít");
    assert_eq!(
        price_change_text(25000, 1500, 24500, -20),
        "- Vùng 1: 25.000đ/lít (+1.500đ/lít)\n- Vùng 2: 24.500đ/lít (-20đ/lít)"
    );
}
