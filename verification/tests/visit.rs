use umami::catalog::{get_nodes, ContentType, Locale};
use umami::page::SubmissionOutcome;
use umami::visit::{
    failure_of, feedback_submission, validate_and_load_static_assets, Failure, FailureKind,
    FetchStatus, FormSubmission, Next, PageFetchResult, Stage, Step, Visit,
};

fn page(url: &str, body: &str) -> PageFetchResult {
    PageFetchResult { request_url: url.to_string(), status: FetchStatus::Success(body.to_string()) }
}

fn no_response(url: &str, error: &str) -> PageFetchResult {
    PageFetchResult {
        request_url: url.to_string(),
        status: FetchStatus::TransportError(error.to_string()),
    }
}

fn unreadable(url: &str, error: &str) -> PageFetchResult {
    PageFetchResult {
        request_url: url.to_string(),
        status: FetchStatus::ParseError(error.to_string()),
    }
}

fn failure(kind: FailureKind, reason: &str) -> Failure {
    Failure { kind, reason: reason.to_string() }
}

fn pair(name: &str, value: &str) -> (String, String) {
    (name.to_string(), value.to_string())
}

/// Runs a visit as a harness would, against responses that are handed out in order, and
/// writes down what the harness does.
fn run(mut visit: Visit, responses: Vec<PageFetchResult>) -> (Vec<String>, Result<(), Failure>) {
    let mut log = vec![format!("GET {}", visit.url)];
    let mut responses = responses.into_iter();
    loop {
        let response = responses.next().expect("a response for every request");
        let step = visit.advance(&response);
        if let Some(outcome) = step.outcome {
            log.push(format!("NOTE {:?}", outcome));
        }
        for asset in &step.assets {
            log.push(format!("ASSET {}", asset));
        }
        match step.next {
            Next::Post(form) => log.push(format!("POST {} {}", form.url, form.fields.len())),
            Next::Succeed => return (log, Ok(())),
            Next::Fail(failure) => return (log, Err(failure)),
            Next::Nothing => panic!("the visit had ended"),
        }
    }
}

#[test]
fn front_page_that_renders_is_a_success() {
    let body = "<title>Home - Umami</title><body><img src=\"/sites/x.png\"></body>";
    let (log, outcome) = run(Visit::front_page(Locale::En), vec![page("http://umami/", body)]);
    assert_eq!(outcome, Ok(()));
    assert_eq!(log, vec!["GET /", "ASSET /sites/x.png"]);
}

#[test]
fn page_with_the_wrong_title_is_a_validation_failure() {
    let mut visit = Visit::to_page("/en/articles/foo", "Foo");
    let response = page("http://umami/en/articles/foo", "<title>Wrong Title</title><img src=\"/sites/x.png\">");
    let step = visit.advance(&response);
    assert_eq!(
        step,
        Step {
            outcome: None,
            assets: vec![],
            next: Next::Fail(failure(
                FailureKind::Validation,
                "http://umami/en/articles/foo: title not found: Foo"
            )),
        }
    );
    assert_eq!(visit.stage, Stage::Done);
    let (log, outcome) = run(Visit::to_page("/en/articles/foo", "Foo"), vec![response]);
    assert_eq!(log, vec!["GET /en/articles/foo"]);
    assert_eq!(outcome.unwrap_err().kind, FailureKind::Validation);
}

#[test]
fn throttled_submission_is_a_success() {
    let form_page = "<title>Website feedback | Umami</title><script src=\"/core/form.js\"></script>\
        <input name=\"form_build_id\" value=\"form-abc\" />";
    let answer = "<title>Website feedback</title><div>You cannot send more than 5 messages in 1 hour.</div>\
        <img src=\"/sites/logo.png\"><link href=\"/sites/default/files/css/z.css\">";
    let (log, outcome) = run(
        Visit::contact_form(Locale::En),
        vec![page("http://umami/en/contact", form_page), page("http://umami/en/contact", answer)],
    );
    assert_eq!(outcome, Ok(()));
    assert_eq!(
        log,
        vec![
            "GET /en/contact",
            "ASSET /core/form.js",
            "POST /en/contact 7",
            "NOTE Throttled",
            "ASSET /sites/logo.png",
            "ASSET /sites/default/files/css/z.css",
        ]
    );
}

#[test]
fn form_page_without_token_is_a_missing_token_failure() {
    let form_page = "<title>Website feedback | Umami</title><img src=\"/sites/a.png\">\
        <input name=\"form_id\" value=\"contact_message_feedback_form\" />";
    let (log, outcome) =
        run(Visit::contact_form(Locale::En), vec![page("http://umami/en/contact", form_page)]);
    assert_eq!(
        outcome,
        Err(failure(FailureKind::MissingToken, "http://umami/en/contact: no form_build_id on page"))
    );
    assert_eq!(log, vec!["GET /en/contact", "ASSET /sites/a.png"]);
}

#[test]
fn accepted_submission_is_a_success() {
    let form_page = "<title>Comentarios sobre el sitio web | Umami</title>\
        <input name=\"form_build_id\" value='form-es' />";
    let answer = "<title>Inicio</title><img src=\"/sites/logo.png\">";
    let mut visit = Visit::contact_form(Locale::Es);
    let first = visit.advance(&page("http://umami/es/contact", form_page));
    assert_eq!(first.outcome, None);
    assert_eq!(first.assets, Vec::<String>::new());
    assert_eq!(
        first.next,
        Next::Post(FormSubmission {
            url: "/es/contact".to_string(),
            fields: vec![
                pair("name", "@TODO: name"),
                pair("mail", "nobody@example.com"),
                pair("subject[0][value]", "@TODO: subject"),
                pair("message[0][value]", "@TODO: message"),
                pair("form_build_id", "form-es"),
                pair("form_id", "contact_message_feedback_form"),
                pair("op", "Send+message"),
            ],
        })
    );
    assert_eq!(visit.stage, Stage::AwaitingSubmission(Locale::Es));
    let second = visit.advance(&page("http://umami/es/contact", answer));
    assert_eq!(
        second,
        Step {
            outcome: Some(SubmissionOutcome::Accepted),
            assets: vec!["/sites/logo.png".to_string()],
            next: Next::Succeed,
        }
    );
    assert_eq!(visit.stage, Stage::Done);
}

#[test]
fn spanish_submission_is_throttled_by_the_spanish_phrase_only() {
    let form_page = "<title>Comentarios sobre el sitio web</title><input name=\"form_build_id\" value=\"t\">";
    let english = "You cannot send more than 5 messages";
    let spanish = "No le está permitido enviar más de 5 mensajes";
    let mut visit = Visit::contact_form(Locale::Es);
    visit.advance(&page("u", form_page));
    let mut other = visit.clone();
    assert_eq!(visit.advance(&page("u", english)).outcome, Some(SubmissionOutcome::Accepted));
    assert_eq!(other.advance(&page("u", spanish)).outcome, Some(SubmissionOutcome::Throttled));
}

#[test]
fn no_response_is_a_transport_failure() {
    let (log, outcome) = run(
        Visit::front_page(Locale::Es),
        vec![no_response("http://umami/es", "connection refused")],
    );
    assert_eq!(
        outcome,
        Err(failure(
            FailureKind::Transport,
            "http://umami/es: no response from server: connection refused"
        ))
    );
    assert_eq!(log, vec!["GET /es"]);
}

#[test]
fn unreadable_body_is_a_decode_failure() {
    let (log, outcome) = run(
        Visit::recipe_listing(Locale::En),
        vec![unreadable("http://umami/en/recipes/", "invalid utf-8")],
    );
    assert_eq!(
        outcome,
        Err(failure(
            FailureKind::Decode,
            "http://umami/en/recipes/: failed to parse page: invalid utf-8"
        ))
    );
    assert_eq!(log, vec!["GET /en/recipes/"]);
}

#[test]
fn submission_that_gets_no_response_fails_the_visit() {
    let form_page = "<title>Website feedback</title><input name=\"form_build_id\" value=\"t\">";
    let (log, outcome) = run(
        Visit::contact_form(Locale::En),
        vec![page("http://umami/en/contact", form_page), no_response("http://umami/en/contact", "timed out")],
    );
    assert_eq!(
        outcome,
        Err(failure(
            FailureKind::Transport,
            "http://umami/en/contact: no response from server: timed out"
        ))
    );
    assert_eq!(log, vec!["GET /en/contact", "POST /en/contact 7"]);
    let (_, outcome) = run(
        Visit::contact_form(Locale::En),
        vec![page("http://umami/en/contact", form_page), unreadable("http://umami/en/contact", "bad body")],
    );
    assert_eq!(
        outcome,
        Err(failure(FailureKind::Decode, "http://umami/en/contact: failed to parse page: bad body"))
    );
}

#[test]
fn form_page_with_the_wrong_title_submits_nothing() {
    let form_page = "<title>Access denied</title><img src=\"/sites/a.png\"><input name=\"form_build_id\" value=\"t\">";
    let (log, outcome) =
        run(Visit::contact_form(Locale::En), vec![page("http://umami/en/contact", form_page)]);
    assert_eq!(
        outcome,
        Err(failure(
            FailureKind::Validation,
            "http://umami/en/contact: title not found: Website feedback"
        ))
    );
    assert_eq!(log, vec!["GET /en/contact"]);
}

#[test]
fn a_visit_that_has_ended_answers_with_nothing() {
    let mut visit = Visit::front_page(Locale::En);
    let body = page("http://umami/", "<title>Home</title><img src=\"/sites/x.png\">");
    assert_eq!(visit.advance(&body).next, Next::Succeed);
    let ended = visit.clone();
    assert_eq!(visit.advance(&body), Step { outcome: None, assets: vec![], next: Next::Nothing });
    assert_eq!(visit, ended);
    assert_eq!(visit.stage, Stage::Done);
}

#[test]
fn validate_and_load_gives_the_assets_of_a_valid_page() {
    let response = page(
        "http://umami/en/recipes/",
        "<title>Recipes | Umami</title><img src=\"/sites/a.png\"><link href=\"/sites/default/files/css/b.css\">",
    );
    assert_eq!(
        validate_and_load_static_assets(&response, "Recipes"),
        Ok(vec!["/sites/a.png".to_string(), "/sites/default/files/css/b.css".to_string()])
    );
    assert_eq!(
        validate_and_load_static_assets(&response, "Recetas"),
        Err(failure(FailureKind::Validation, "http://umami/en/recipes/: title not found: Recetas"))
    );
    assert_eq!(
        validate_and_load_static_assets(&no_response("u", "e"), "Recipes"),
        Err(failure(FailureKind::Transport, "u: no response from server: e"))
    );
    assert_eq!(
        validate_and_load_static_assets(&unreadable("u", "e"), "Recipes"),
        Err(failure(FailureKind::Decode, "u: failed to parse page: e"))
    );
}

#[test]
fn failure_of_a_response_that_brought_a_page_is_none() {
    assert_eq!(failure_of(&page("u", "")), None);
    assert_eq!(
        failure_of(&no_response("", "")),
        Some(failure(FailureKind::Transport, ": no response from server: "))
    );
}

#[test]
fn feedback_submission_repeats_the_token_in_the_fifth_field() {
    let form = feedback_submission("/en/contact", "form-123".to_string());
    assert_eq!(form.url, "/en/contact");
    assert_eq!(form.fields.len(), 7);
    assert_eq!(form.fields[4], pair("form_build_id", "form-123"));
    let names: Vec<&str> = form.fields.iter().map(|f| f.0.as_str()).collect();
    assert_eq!(
        names,
        vec!["name", "mail", "subject[0][value]", "message[0][value]", "form_build_id", "form_id", "op"]
    );
}

#[test]
fn fixed_pages_have_their_paths_and_titles() {
    let cases = [
        (Visit::front_page(Locale::En), "/", "Home"),
        (Visit::front_page(Locale::Es), "/es", "Inicio"),
        (Visit::article_listing(Locale::En), "/en/articles/", "Articles"),
        (Visit::article_listing(Locale::Es), "/es/articles/", "Artículos"),
        (Visit::recipe_listing(Locale::En), "/en/recipes/", "Recipes"),
        (Visit::recipe_listing(Locale::Es), "/es/recipes/", "Recetas"),
    ];
    for (visit, url, title) in cases {
        assert_eq!(visit.url, url);
        assert_eq!(visit.title, title);
        assert_eq!(visit.form, None);
        assert_eq!(visit.stage, Stage::AwaitingPage);
    }
    let english = Visit::contact_form(Locale::En);
    assert_eq!((english.url.as_str(), english.title.as_str()), ("/en/contact", "Website feedback"));
    assert_eq!(english.form, Some(Locale::En));
    let spanish = Visit::contact_form(Locale::Es);
    assert_eq!(
        (spanish.url.as_str(), spanish.title.as_str()),
        ("/es/contact", "Comentarios sobre el sitio web")
    );
    assert_eq!(spanish.form, Some(Locale::Es));
    assert_eq!(spanish.stage, Stage::AwaitingPage);
}

#[test]
fn visit_to_a_node_goes_by_the_language() {
    let node = get_nodes(&ContentType::Article)[4];
    let english = Visit::node(&node, Locale::En);
    assert_eq!(english.url, "/en/articles/lets-hear-it-for-carrots");
    assert_eq!(english.title, "Let&#039;s hear it for carrots");
    let spanish = Visit::node(&node, Locale::Es);
    assert_eq!(spanish.url, "/es/articles/un-aplauso-para-las-zanahorias");
    assert_eq!(spanish.title, "Un aplauso para las zanahorias");
    assert_eq!(spanish.form, None);
}

#[test]
fn visit_by_number_asks_for_the_english_title() {
    let page = get_nodes(&ContentType::BasicPage)[0];
    let visit = Visit::by_nid(&page);
    assert_eq!(visit.url, "/node/18");
    assert_eq!(visit.title, "About Umami");
    let recipe = get_nodes(&ContentType::Recipe)[6];
    let visit = Visit::by_nid(&recipe);
    assert_eq!(visit.url, "/node/7");
    assert_eq!(visit.title, "Thai green curry");
    assert_eq!(visit.form, None);
    assert_eq!(visit.stage, Stage::AwaitingPage);
}

#[test]
fn random_visit_is_a_visit_to_a_node_of_the_type() {
    for content_type in [ContentType::Article, ContentType::BasicPage, ContentType::Recipe] {
        for locale in [Locale::En, Locale::Es] {
            for _ in 0..50 {
                let visit = Visit::random_node(&content_type, locale);
                let nodes = get_nodes(&content_type);
                assert!(
                    nodes.iter().any(|node| visit == Visit::node(node, locale)),
                    "{:?}",
                    visit
                );
            }
        }
    }
}

#[test]
fn random_visit_by_number_is_a_visit_to_a_node_of_the_site() {
    let mut all = Vec::new();
    for content_type in [ContentType::Article, ContentType::BasicPage, ContentType::Recipe] {
        for node in get_nodes(&content_type) {
            all.push(Visit::by_nid(&node));
        }
    }
    assert_eq!(all.len(), 18);
    for _ in 0..200 {
        let visit = Visit::random_by_nid();
        assert!(all.contains(&visit), "{:?}", visit);
        assert!(visit.url.starts_with("/node/"));
    }
}

#[test]
fn random_visits_reach_more_than_one_recipe() {
    let first = Visit::random_node(&ContentType::Recipe, Locale::En);
    let mut other = false;
    for _ in 0..1000 {
        if Visit::random_node(&ContentType::Recipe, Locale::En) != first {
            other = true;
            break;
        }
    }
    assert!(other);
}
