use mokuroku::media::{LookupMediaPagePageMedia, MediaPage, MediaType, PageInfo, Title};
use mokuroku::mediatrack::{group_by_season, season_of, MediaTrack, Season, TrackedRecord};
use mokuroku::models::{
    page_of_response, Anime, CoverImage, Format, FuzzyDate, PageData, QueryError, QueryResponse,
    Status,
};
use mokuroku::source::MediaPaginatorError;

fn full_title() -> Title {
    Title {
        romaji: Some("Rom".to_owned()),
        english: Some("Eng".to_owned()),
        native: Some("Nat".to_owned()),
        user_preferred: Some("Usr pref".to_owned()),
    }
}

fn anime_with(title: Title) -> Anime {
    Anime {
        id: 21,
        site_url: "https://anilist.co/anime/21".to_owned(),
        title,
        format: Format::Tv,
        status: Status::Finished,
        genres: vec!["adventure".to_owned(), "fantasy".to_owned()],
        start_date: FuzzyDate { year: Some(2020), month: Some(2), day: Some(3) },
        end_date: FuzzyDate { year: Some(2020), month: Some(9), day: Some(7) },
        cover_image: CoverImage { medium: "m.jpg".to_owned(), large: "l.jpg".to_owned() },
        duration: Some(23),
        episodes: Some(12),
        average_score: Some(9),
        description: "Ranking of the kings".to_owned(),
    }
}

#[test]
fn anime_title_prefers_user_preferred() {
    assert_eq!(anime_with(full_title()).get_title(), "Usr pref");
    let mut t = full_title();
    t.user_preferred = None;
    assert_eq!(anime_with(t).get_title(), "Eng");
    let mut t = full_title();
    t.user_preferred = None;
    t.english = None;
    assert_eq!(anime_with(t).get_title(), "Rom");
    let mut t = full_title();
    t.user_preferred = None;
    t.english = None;
    t.romaji = None;
    assert_eq!(anime_with(t).get_title(), "Nat");
    let empty = Title { romaji: None, english: None, native: None, user_preferred: None };
    assert_eq!(anime_with(empty).get_title(), "?");
}

#[test]
fn media_title_prefers_user_preferred() {
    let m = LookupMediaPagePageMedia { id: 1, title: Some(full_title()) };
    assert_eq!(m.get_title(), "Usr pref");
    let m = LookupMediaPagePageMedia {
        id: 1,
        title: Some(Title {
            romaji: Some("Rom".to_owned()),
            english: None,
            native: None,
            user_preferred: None,
        }),
    };
    assert_eq!(m.get_title(), "Rom");
    let m = LookupMediaPagePageMedia {
        id: 1,
        title: Some(Title { romaji: None, english: None, native: None, user_preferred: None }),
    };
    assert_eq!(m.get_title(), "?");
}

#[test]
fn format_and_status_labels() {
    assert_eq!(Format::Tv.text(), "📺 Tv");
    assert_eq!(Format::Movie.text(), "🎥 Movie");
    assert_eq!(Format::OneShot.text(), "📄 One Shot");
    assert_eq!(Status::Finished.text(), "Finished");
    assert_eq!(Status::NotYetReleased.text(), "Not Released Yet");
}

#[test]
fn fuzzy_date_completeness() {
    assert!(FuzzyDate { year: Some(2020), month: Some(2), day: Some(3) }.is_complete());
    assert!(!FuzzyDate { year: Some(2020), month: None, day: Some(3) }.is_complete());
    assert!(!FuzzyDate { year: None, month: None, day: None }.is_complete());
}

#[test]
fn query_response_error_envelope() {
    let ok: QueryResponse<i32> = QueryResponse { errors: None, data: Some(1) };
    assert!(!ok.has_errors());
    let empty: QueryResponse<i32> = QueryResponse { errors: Some(vec![]), data: Some(1) };
    assert!(!empty.has_errors());
    let bad: QueryResponse<i32> = QueryResponse {
        errors: Some(vec![QueryError { message: "nope".to_owned(), status: 404 }]),
        data: None,
    };
    assert!(bad.has_errors());
}

#[test]
fn seasons_follow_the_grouping_arithmetic() {
    assert_eq!(season_of(2021, 2), Season::Spring(2021));
    assert_eq!(season_of(2021, 4), Season::Spring(2021));
    assert_eq!(season_of(2021, 5), Season::Summer(2021));
    assert_eq!(season_of(2021, 7), Season::Summer(2021));
    assert_eq!(season_of(2021, 8), Season::Fall(2021));
    assert_eq!(season_of(2021, 10), Season::Fall(2021));
    assert_eq!(season_of(2021, 11), Season::Winter(2021));
    assert_eq!(season_of(2021, 12), Season::Winter(2021));
    // January folds into spring through the truncation in the grouping
    // arithmetic.
    assert_eq!(season_of(2021, 1), Season::Spring(2021));
}

#[test]
fn media_track_line_marks_suggestions() {
    let suggested = MediaTrack {
        title: "Ranking of the kings".to_owned(),
        suggests: true,
        media_type: MediaType::Anime,
    };
    assert_eq!(suggested.text(), "🔸 Ranking of the kings");
    let plain = MediaTrack {
        title: "Ranking of the kings".to_owned(),
        suggests: false,
        media_type: MediaType::Manga,
    };
    assert_eq!(plain.text(), "▪ Ranking of the kings");
}

fn some_page() -> MediaPage {
    MediaPage {
        page_info: PageInfo { total: 1, current_page: 1, last_page: 1, has_next_page: false },
        media: vec![LookupMediaPagePageMedia { id: 9, title: None }],
    }
}

#[test]
fn page_of_response_accepts_a_clean_answer() {
    let r: QueryResponse<PageData> =
        QueryResponse { errors: None, data: Some(PageData { page: Some(some_page()) }) };
    let page = page_of_response(r).expect("a clean answer yields the page");
    assert_eq!(page.media.len(), 1);
    assert_eq!(page.media[0].id, 9);

    let r: QueryResponse<PageData> =
        QueryResponse { errors: Some(vec![]), data: Some(PageData { page: Some(some_page()) }) };
    assert!(page_of_response(r).is_ok(), "an empty error envelope is no failure");
}

#[test]
fn page_of_response_rejects_errors_and_missing_pieces() {
    let r: QueryResponse<PageData> = QueryResponse {
        errors: Some(vec![QueryError { message: "bad".to_owned(), status: 400 }]),
        data: Some(PageData { page: Some(some_page()) }),
    };
    assert_eq!(page_of_response(r).unwrap_err(), MediaPaginatorError::GraphQLError);

    let r: QueryResponse<PageData> = QueryResponse { errors: None, data: None };
    assert_eq!(page_of_response(r).unwrap_err(), MediaPaginatorError::GraphQLError);

    let r: QueryResponse<PageData> = QueryResponse { errors: None, data: Some(PageData { page: None }) };
    assert_eq!(page_of_response(r).unwrap_err(), MediaPaginatorError::GraphQLError);
}

fn dated_record(title: &str, year: Option<i32>, month: Option<i32>, suggests: bool) -> TrackedRecord {
    TrackedRecord {
        title: title.to_owned(),
        suggests,
        media_type: MediaType::Anime,
        release_year: year,
        release_month: month,
    }
}

#[test]
fn group_by_season_orders_and_groups() {
    let records = vec![
        dated_record("a", Some(2021), Some(2), false),
        dated_record("b", None, None, true),
        dated_record("c", Some(2021), Some(11), false),
        dated_record("d", Some(2020), Some(5), false),
        dated_record("e", Some(2021), Some(3), true),
    ];
    let groups = group_by_season(records, 16);
    let seasons: Vec<Season> = groups.iter().map(|g| g.release_season).collect();
    assert_eq!(
        seasons,
        vec![
            Season::Upcomming,
            Season::Winter(2021),
            Season::Spring(2021),
            Season::Summer(2020),
        ],
        "not-yet-dated first, then newest seasons first"
    );
    let spring: Vec<&str> = groups[2].media.iter().map(|m| m.title.as_str()).collect();
    assert_eq!(spring, vec!["a", "e"], "one group per season, entries in stored order");
    assert_eq!(groups[0].media[0].title, "b");
    assert!(groups[0].media[0].suggests);
}

#[test]
fn group_by_season_honours_the_limit() {
    let records = vec![
        dated_record("a", Some(2021), Some(2), false),
        dated_record("b", Some(2020), Some(5), false),
        dated_record("c", Some(2019), Some(8), false),
    ];
    let groups = group_by_season(records, 2);
    let seasons: Vec<Season> = groups.iter().map(|g| g.release_season).collect();
    assert_eq!(seasons, vec![Season::Spring(2021), Season::Summer(2020)]);
}

#[test]
fn group_by_season_treats_bad_months_as_undated() {
    let records = vec![dated_record("a", Some(2021), Some(13), false)];
    let groups = group_by_season(records, 16);
    assert_eq!(groups.len(), 1);
    assert_eq!(groups[0].release_season, Season::Upcomming);
}
