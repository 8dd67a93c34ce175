use exospot::search::youtube_search_url;

#[test]
fn query_is_percent_encoded() {
    let url = youtube_search_url("Daft Punk", "Harder, Better");
    assert_eq!(
        url,
        "https://www.youtube.com/results?search_query=Daft%20Punk%20Harder%2C%20Better"
    );
}

#[test]
fn plain_words_pass_through() {
    let url = youtube_search_url("abba", "waterloo");
    assert_eq!(url, "https://www.youtube.com/results?search_query=abba%20waterloo");
}

#[test]
fn empty_names_still_yield_the_separator() {
    let url = youtube_search_url("", "");
    assert_eq!(url, "https://www.youtube.com/results?search_query=%20");
}
