use scholar::{get_base_url, Error, ScholarArgs, Services};

fn bare_args(query: &str) -> ScholarArgs {
    ScholarArgs {
        query: String::from(query),
        cite_id: None,
        from_year: None,
        to_year: None,
        sort_by: None,
        cluster_id: None,
        lang: None,
        lang_limit: None,
        limit: None,
        offset: None,
        adult_filtering: None,
        include_similar_results: None,
        include_citations: None,
    }
}

#[test]
fn build_url_query() {
    let sc = bare_args("abcd");

    match sc.get_url() {
        Ok(url) => assert!(
            url.eq("https://scholar.google.com/scholar?q=abcd"),
            "value was {}",
            url
        ),
        Err(_e) => assert_eq!(false, true),
    }
}

#[test]
fn build_url_all() {
    let sc = ScholarArgs {
        query: String::from("abcd"),
        cite_id: Some("213123123123"),
        from_year: Some(2018),
        to_year: Some(2021),
        sort_by: Some(0),
        cluster_id: Some("3121312312"),
        lang: Some("en"),
        lang_limit: Some("lang_fr|lang_en"),
        limit: Some(10),
        offset: Some(5),
        adult_filtering: Some(true),
        include_similar_results: Some(true),
        include_citations: Some(true),
    };
    match sc.get_url() {
        Ok(url) => assert!(
            url.eq("https://scholar.google.com/scholar?q=abcd&cites=213123123123&as_ylo=2018&as_yhi=2021&scisbd=0&cluster=3121312312&hl=en&lr=lang_fr|lang_en&num=10&start=5&safe=active&filter=1&as_vis=1"),
            "value was {}",
            url
        ),
        Err(_e) => assert_eq!(false, true),
    }
}

#[test]
fn base_url_of_scholar() {
    assert_eq!(
        get_base_url(Services::Scholar),
        "https://scholar.google.com/scholar?"
    );
    assert!(matches!(bare_args("x").get_service(), Services::Scholar));
}

#[test]
fn composed_url_query_only() {
    assert_eq!(
        bare_args("machine-learning").compose_url(),
        "https://scholar.google.com/scholar?q=machine-learning"
    );
}

#[test]
fn composed_url_flags_off_and_numbers() {
    let mut sc = bare_args("q");
    sc.from_year = Some(7);
    sc.to_year = Some(65535);
    sc.sort_by = Some(2);
    sc.limit = Some(4294967295);
    sc.offset = Some(100);
    sc.adult_filtering = Some(false);
    sc.include_similar_results = Some(false);
    sc.include_citations = Some(false);
    assert_eq!(
        sc.compose_url(),
        "https://scholar.google.com/scholar?q=q&as_ylo=7&as_yhi=65535&scisbd=2&num=4294967295&start=100&safe=off&filter=0&as_vis=0"
    );
}

#[test]
fn empty_query_is_refused() {
    let mut sc = bare_args("");
    sc.limit = Some(3);
    assert!(matches!(sc.get_url(), Err(Error::RequiredFieldError)));
}

#[test]
fn unknown_sort_mode_is_dropped() {
    let mut sc = bare_args("abcd");
    sc.sort_by = Some(3);
    sc.limit = Some(10);
    let url = sc.get_url().ok().unwrap();
    assert_eq!(url, "https://scholar.google.com/scholar?q=abcd&num=10");
    sc.sort_by = Some(255);
    assert_eq!(
        sc.compose_url(),
        "https://scholar.google.com/scholar?q=abcd&num=10"
    );
    sc.sort_by = Some(1);
    assert_eq!(
        sc.compose_url(),
        "https://scholar.google.com/scholar?q=abcd&scisbd=1&num=10"
    );
}

#[test]
fn url_is_normalised() {
    let sc = bare_args("deep learning");
    assert_eq!(
        sc.compose_url(),
        "https://scholar.google.com/scholar?q=deep learning"
    );
    assert_eq!(
        sc.get_url().ok().unwrap(),
        "https://scholar.google.com/scholar?q=deep%20learning"
    );
}

#[test]
fn error_text() {
    assert_eq!(
        Error::ConnectionError(String::from("https://a.example/")).to_string(),
        "Could not connect to https://a.example/"
    );
    assert_eq!(Error::ParseError.to_string(), "ParseError");
    assert_eq!(Error::InvalidServiceError.to_string(), "InvalidServiceError");
    assert_eq!(Error::RequiredFieldError.to_string(), "RequiredFieldError");
    assert_eq!(Error::NotImplementedError.to_string(), "NotImplementedError");
    assert_eq!(Error::MalformedUrlError.to_string(), "MalformedUrlError");
}
