//! One visit to a page, step by step. The caller sends the requests and loads the assets; the
//! visit decides, response by response, what follows: which assets to load, whether to submit
//! the contact form, and how the visit ends.

use crate::catalog::{catalog, ContentType, Locale, Node, NodeView};
use crate::page::{
    classify_submission, form_value, get_form_value, has_title, load_static_elements,
    static_elements, submission_outcome, valid_title, SubmissionOutcome,
};
use crate::pick::{random_content_type, random_node};
use crate::text::{decimal, decimal_of, texts};
use vstd::prelude::*;
use vstd::string::StringExecFns;

verus! {

/// How a request ended: with the text of a page, with no response at all, or with a response
/// whose body could not be read as text. The errors carry the transport's own words.
#[derive(Clone, Debug, PartialEq, Eq)]
pub enum FetchStatus {
    Success(String),
    TransportError(String),
    ParseError(String),
}

/// What the transport hands back for one request.
#[derive(Clone, Debug, PartialEq, Eq)]
pub struct PageFetchResult {
    pub request_url: String,
    pub status: FetchStatus,
}

/// Why a visit failed.
#[derive(Clone, Copy, Debug, PartialEq, Eq, Structural)]
pub enum FailureKind {
    /// No response was received.
    Transport,
    /// The body of the response could not be read as text.
    Decode,
    /// The page does not carry the expected title.
    Validation,
    /// The form on the page lacks the field that a submission must repeat.
    MissingToken,
}

/// A failed visit, with the words in which it is reported.
#[derive(Clone, Debug, PartialEq, Eq)]
pub struct Failure {
    pub kind: FailureKind,
    pub reason: String,
}

/// A form to submit: the fields, in the order in which they are sent.
#[derive(Clone, Debug, PartialEq, Eq)]
pub struct FormSubmission {
    pub url: String,
    pub fields: Vec<(String, String)>,
}

/// What follows a step of a visit.
#[derive(Clone, Debug, PartialEq, Eq)]
pub enum Next {
    /// Submit the form and hand the response to the visit.
    Post(FormSubmission),
    /// The visit has ended well.
    Succeed,
    /// The visit has failed.
    Fail(Failure),
    /// The visit had ended before the response came: nothing follows.
    Nothing,
}

/// What a visit asks for in answer to a response: first to note what became of a submission,
/// if the response answers one, then to load the assets, then to go on as `next` says.
#[derive(Clone, Debug, PartialEq, Eq)]
pub struct Step {
    pub outcome: Option<SubmissionOutcome>,
    pub assets: Vec<String>,
    pub next: Next,
}

/// Where a visit stands: which response it waits for, if any.
#[derive(Clone, Copy, Debug, PartialEq, Eq, Structural)]
pub enum Stage {
    AwaitingPage,
    AwaitingSubmission(Locale),
    Done,
}

/// A visit to one page: its path, the title that the page must carry, and, for the contact
/// form, the language in which it is submitted.
#[derive(Clone, Debug, PartialEq, Eq)]
pub struct Visit {
    pub url: String,
    pub title: String,
    pub form: Option<Locale>,
    pub stage: Stage,
}

pub enum FetchStatusView {
    Success(Seq<char>),
    TransportError(Seq<char>),
    ParseError(Seq<char>),
}

pub struct PageFetchResultView {
    pub request_url: Seq<char>,
    pub status: FetchStatusView,
}

pub struct FailureView {
    pub kind: FailureKind,
    pub reason: Seq<char>,
}

pub struct FormSubmissionView {
    pub url: Seq<char>,
    pub fields: Seq<(Seq<char>, Seq<char>)>,
}

pub enum NextView {
    Post(FormSubmissionView),
    Succeed,
    Fail(FailureView),
    Nothing,
}

pub struct StepView {
    pub outcome: Option<SubmissionOutcome>,
    pub assets: Seq<Seq<char>>,
    pub next: NextView,
}

pub struct VisitView {
    pub url: Seq<char>,
    pub title: Seq<char>,
    pub form: Option<Locale>,
    pub stage: Stage,
}

impl View for FetchStatus {
    type V = FetchStatusView;

    open spec fn view(&self) -> FetchStatusView {
        match self {
            FetchStatus::Success(body) => FetchStatusView::Success(body@),
            FetchStatus::TransportError(error) => FetchStatusView::TransportError(error@),
            FetchStatus::ParseError(error) => FetchStatusView::ParseError(error@),
        }
    }
}

impl View for PageFetchResult {
    type V = PageFetchResultView;

    open spec fn view(&self) -> PageFetchResultView {
        PageFetchResultView { request_url: self.request_url@, status: self.status@ }
    }
}

impl View for Failure {
    type V = FailureView;

    open spec fn view(&self) -> FailureView {
        FailureView { kind: self.kind, reason: self.reason@ }
    }
}

/// What each of `fields` says, one for one.
pub open spec fn field_texts(fields: Seq<(String, String)>) -> Seq<(Seq<char>, Seq<char>)> {
    fields.map_values(|field: (String, String)| (field.0@, field.1@))
}

impl View for FormSubmission {
    type V = FormSubmissionView;

    open spec fn view(&self) -> FormSubmissionView {
        FormSubmissionView { url: self.url@, fields: field_texts(self.fields@) }
    }
}

impl View for Next {
    type V = NextView;

    open spec fn view(&self) -> NextView {
        match self {
            Next::Post(form) => NextView::Post(form@),
            Next::Succeed => NextView::Succeed,
            Next::Fail(failure) => NextView::Fail(failure@),
            Next::Nothing => NextView::Nothing,
        }
    }
}

impl View for Step {
    type V = StepView;

    open spec fn view(&self) -> StepView {
        StepView { outcome: self.outcome, assets: texts(self.assets@), next: self.next@ }
    }
}

impl View for Visit {
    type V = VisitView;

    open spec fn view(&self) -> VisitView {
        VisitView { url: self.url@, title: self.title@, form: self.form, stage: self.stage }
    }
}

/// The failure that a response brings where it brings no page.
pub open spec fn fetch_failure(response: PageFetchResultView) -> Option<FailureView> {
    match response.status {
        FetchStatusView::Success(_) => None,
        FetchStatusView::TransportError(error) => Some(
            FailureView {
                kind: FailureKind::Transport,
                reason: response.request_url + ": no response from server: "@ + error,
            },
        ),
        FetchStatusView::ParseError(error) => Some(
            FailureView {
                kind: FailureKind::Decode,
                reason: response.request_url + ": failed to parse page: "@ + error,
            },
        ),
    }
}

/// The failure of a page that does not carry `title`.
pub open spec fn title_failure(request_url: Seq<char>, title: Seq<char>) -> FailureView {
    FailureView {
        kind: FailureKind::Validation,
        reason: request_url + ": title not found: "@ + title,
    }
}

/// The failure of a form page without the field that a submission must repeat.
pub open spec fn token_failure(request_url: Seq<char>) -> FailureView {
    FailureView { kind: FailureKind::MissingToken, reason: request_url + ": no form_build_id on page"@ }
}

/// What a response says of the page that was asked for: the assets to load where the page
/// came and carries `title`, and else the failure.
pub open spec fn page_verdict(response: PageFetchResultView, title: Seq<char>) -> Result<
    Seq<Seq<char>>,
    FailureView,
> {
    match response.status {
        FetchStatusView::Success(html) => if has_title(html, title) {
            Ok(static_elements(html))
        } else {
            Err(title_failure(response.request_url, title))
        },
        _ => Err(fetch_failure(response)->0),
    }
}

/// No assets.
fn no_assets() -> (assets: Vec<String>)
    ensures
        texts(assets@) == Seq::<Seq<char>>::empty(),
{
    let assets: Vec<String> = Vec::new();
    assert(texts(assets@) =~= Seq::<Seq<char>>::empty());
    assets
}

/// A verdict as text.
pub open spec fn verdict_view(verdict: Result<Vec<String>, Failure>) -> Result<
    Seq<Seq<char>>,
    FailureView,
> {
    match verdict {
        Ok(assets) => Ok(texts(assets@)),
        Err(failure) => Err(failure@),
    }
}

/// A failure, or none, as text.
pub open spec fn failure_view(failure: Option<Failure>) -> Option<FailureView> {
    match failure {
        Some(failure) => Some(failure@),
        None => None,
    }
}

/// The failure that `response` brings where it brings no page.
pub fn failure_of(response: &PageFetchResult) -> (failure: Option<Failure>)
    ensures
        failure_view(failure) == fetch_failure(response@),
{
    match &response.status {
        FetchStatus::Success(_) => None,
        FetchStatus::TransportError(error) => {
            let reason = response.request_url.clone().concat(": no response from server: ").concat(
                error.as_str(),
            );
            Some(Failure { kind: FailureKind::Transport, reason })
        },
        FetchStatus::ParseError(error) => {
            let reason = response.request_url.clone().concat(": failed to parse page: ").concat(
                error.as_str(),
            );
            Some(Failure { kind: FailureKind::Decode, reason })
        },
    }
}

/// Validate the HTML response, confirming the expected title was returned, then find
/// all static assets on the page, for the caller to load.
pub fn validate_and_load_static_assets(page: &PageFetchResult, title: &str) -> (verdict: Result<
    Vec<String>,
    Failure,
>)
    ensures
        verdict_view(verdict) == page_verdict(page@, title@),
{
    match &page.status {
        FetchStatus::Success(html) => {
            if !valid_title(html.as_str(), title) {
                let reason = page.request_url.clone().concat(": title not found: ").concat(title);
                return Err(Failure { kind: FailureKind::Validation, reason });
            }
            Ok(load_static_elements(html.as_str()))
        },
        _ => {
            let failure = failure_of(page);
            Err(failure.unwrap())
        },
    }
}

/// The fields of the feedback form, in the order in which they are sent. `token` is what
/// the form page holds in its field `form_build_id`.
pub open spec fn feedback_fields(token: Seq<char>) -> Seq<(Seq<char>, Seq<char>)> {
    seq![
        ("name"@, "@TODO: name"@),
        ("mail"@, "nobody@example.com"@),
        ("subject[0][value]"@, "@TODO: subject"@),
        ("message[0][value]"@, "@TODO: message"@),
        ("form_build_id"@, token),
        ("form_id"@, "contact_message_feedback_form"@),
        ("op"@, "Send+message"@),
    ]
}

/// The feedback form as it is submitted to `url`.
pub open spec fn feedback_form(url: Seq<char>, token: Seq<char>) -> FormSubmissionView {
    FormSubmissionView { url, fields: feedback_fields(token) }
}

/// The feedback form as it is submitted to `url`, with the token of the form page.
pub fn feedback_submission(url: &str, token: String) -> (form: FormSubmission)
    ensures
        form@ == feedback_form(url@, token@),
{
    let ghost said = token@;
    let mut fields: Vec<(String, String)> = Vec::new();
    fields.push((String::from_str("name"), String::from_str("@TODO: name")));
    fields.push((String::from_str("mail"), String::from_str("nobody@example.com")));
    fields.push((String::from_str("subject[0][value]"), String::from_str("@TODO: subject")));
    fields.push((String::from_str("message[0][value]"), String::from_str("@TODO: message")));
    fields.push((String::from_str("form_build_id"), token));
    fields.push((String::from_str("form_id"), String::from_str("contact_message_feedback_form")));
    fields.push((String::from_str("op"), String::from_str("Send+message")));
    assert(field_texts(fields@) =~= feedback_fields(said));
    FormSubmission { url: String::from_str(url), fields }
}

/// What follows the page of a form, once the page has been found valid: the submission, with
/// the token that the page holds, or the failure of a page that holds none.
pub open spec fn after_form_page(url: Seq<char>, response: PageFetchResultView) -> NextView {
    match response.status {
        FetchStatusView::Success(html) => match form_value(html, "form_build_id"@) {
            Some(token) => NextView::Post(feedback_form(url, token)),
            None => NextView::Fail(token_failure(response.request_url)),
        },
        _ => NextView::Fail(fetch_failure(response)->0),
    }
}

/// The step with which a visit answers the page that it asked for.
pub open spec fn step_on_page(visit: VisitView, response: PageFetchResultView) -> StepView {
    match page_verdict(response, visit.title) {
        Err(failure) => StepView {
            outcome: None,
            assets: Seq::empty(),
            next: NextView::Fail(failure),
        },
        Ok(assets) => StepView {
            outcome: None,
            assets,
            next: if visit.form is Some {
                after_form_page(visit.url, response)
            } else {
                NextView::Succeed
            },
        },
    }
}

/// The step with which a visit answers the response to its submission. A throttled
/// submission is an event of the load test like an accepted one: the visit ends well.
pub open spec fn step_on_submission(locale: Locale, response: PageFetchResultView) -> StepView {
    match response.status {
        FetchStatusView::Success(html) => StepView {
            outcome: Some(submission_outcome(html, locale)),
            assets: static_elements(html),
            next: NextView::Succeed,
        },
        _ => StepView {
            outcome: None,
            assets: Seq::empty(),
            next: NextView::Fail(fetch_failure(response)->0),
        },
    }
}

/// The step with which a visit answers a response.
pub open spec fn step_of(visit: VisitView, response: PageFetchResultView) -> StepView {
    match visit.stage {
        Stage::AwaitingPage => step_on_page(visit, response),
        Stage::AwaitingSubmission(locale) => step_on_submission(locale, response),
        Stage::Done => StepView { outcome: None, assets: Seq::empty(), next: NextView::Nothing },
    }
}

impl VisitView {
    /// A visit to the page at `url`, which must carry `title`.
    pub open spec fn to_page(url: Seq<char>, title: Seq<char>) -> VisitView {
        VisitView { url, title, form: None, stage: Stage::AwaitingPage }
    }

    /// A visit to the front page.
    pub open spec fn front_page(locale: Locale) -> VisitView {
        match locale {
            Locale::En => Self::to_page("/"@, "Home"@),
            Locale::Es => Self::to_page("/es"@, "Inicio"@),
        }
    }

    /// A visit to the listing of the articles.
    pub open spec fn article_listing(locale: Locale) -> VisitView {
        match locale {
            Locale::En => Self::to_page("/en/articles/"@, "Articles"@),
            Locale::Es => Self::to_page("/es/articles/"@, "Artículos"@),
        }
    }

    /// A visit to the listing of the recipes.
    pub open spec fn recipe_listing(locale: Locale) -> VisitView {
        match locale {
            Locale::En => Self::to_page("/en/recipes/"@, "Recipes"@),
            Locale::Es => Self::to_page("/es/recipes/"@, "Recetas"@),
        }
    }

    /// A visit to the page of `node`, under its own path.
    pub open spec fn node(node: NodeView, locale: Locale) -> VisitView {
        Self::to_page(node.url(locale), node.title(locale))
    }

    /// A visit to the page of `node`, under the path that is made of its number. The site
    /// answers it in English.
    pub open spec fn by_nid(node: NodeView) -> VisitView {
        Self::to_page("/node/"@ + decimal(node.nid), node.title_en)
    }

    /// A visit to the contact form, which is then submitted.
    pub open spec fn contact_form(locale: Locale) -> VisitView {
        match locale {
            Locale::En => VisitView {
                url: "/en/contact"@,
                title: "Website feedback"@,
                form: Some(locale),
                stage: Stage::AwaitingPage,
            },
            Locale::Es => VisitView {
                url: "/es/contact"@,
                title: "Comentarios sobre el sitio web"@,
                form: Some(locale),
                stage: Stage::AwaitingPage,
            },
        }
    }

    /// Where the visit stands once its step has said that `next` follows.
    pub open spec fn stage_after(self, next: NextView) -> Stage {
        match next {
            NextView::Post(_) => match self.form {
                Some(locale) => Stage::AwaitingSubmission(locale),
                None => Stage::Done,
            },
            _ => Stage::Done,
        }
    }

    /// The visit once its step has said that `next` follows.
    pub open spec fn after(self, next: NextView) -> VisitView {
        VisitView { stage: self.stage_after(next), ..self }
    }
}

impl Visit {
    /// A visit to the page at `url`, which must carry `title`.
    pub fn to_page(url: &str, title: &str) -> (visit: Visit)
        ensures
            visit@ == VisitView::to_page(url@, title@),
    {
        Visit {
            url: String::from_str(url),
            title: String::from_str(title),
            form: None,
            stage: Stage::AwaitingPage,
        }
    }

    /// A visit to the front page.
    pub fn front_page(locale: Locale) -> (visit: Visit)
        ensures
            visit@ == VisitView::front_page(locale),
    {
        match locale {
            Locale::En => Visit::to_page("/", "Home"),
            Locale::Es => Visit::to_page("/es", "Inicio"),
        }
    }

    /// A visit to the listing of the articles.
    pub fn article_listing(locale: Locale) -> (visit: Visit)
        ensures
            visit@ == VisitView::article_listing(locale),
    {
        match locale {
            Locale::En => Visit::to_page("/en/articles/", "Articles"),
            Locale::Es => Visit::to_page("/es/articles/", "Artículos"),
        }
    }

    /// A visit to the listing of the recipes.
    pub fn recipe_listing(locale: Locale) -> (visit: Visit)
        ensures
            visit@ == VisitView::recipe_listing(locale),
    {
        match locale {
            Locale::En => Visit::to_page("/en/recipes/", "Recipes"),
            Locale::Es => Visit::to_page("/es/recipes/", "Recetas"),
        }
    }

    /// A visit to the page of `node`, under its own path.
    pub fn node(node: &Node, locale: Locale) -> (visit: Visit)
        ensures
            visit@ == VisitView::node(node@, locale),
    {
        Visit::to_page(node.url(locale), node.title(locale))
    }

    /// A visit to the page of `node`, under the path that is made of its number.
    pub fn by_nid(node: &Node) -> (visit: Visit)
        ensures
            visit@ == VisitView::by_nid(node@),
    {
        let url = String::from_str("/node/").concat(decimal_of(node.nid).as_str());
        Visit::to_page(url.as_str(), node.title_en)
    }

    /// A visit to a node of `content_type` that is chosen at random, anew at every call.
    pub fn random_node(content_type: &ContentType, locale: Locale) -> (visit: Visit)
        ensures
            exists|node: NodeView| #[trigger]
                catalog(*content_type).contains(node) && visit@ == VisitView::node(node, locale),
    {
        let node = random_node(content_type);
        Visit::node(&node, locale)
    }

    /// A visit, by its number, to a node that is chosen at random: first the content type,
    /// then a node of that type.
    pub fn random_by_nid() -> (visit: Visit)
        ensures
            exists|content_type: ContentType, node: NodeView| #[trigger]
                catalog(content_type).contains(node) && visit@ == VisitView::by_nid(node),
    {
        let content_type = random_content_type();
        let node = random_node(&content_type);
        Visit::by_nid(&node)
    }

    /// A visit to the contact form, which is then submitted.
    pub fn contact_form(locale: Locale) -> (visit: Visit)
        ensures
            visit@ == VisitView::contact_form(locale),
    {
        match locale {
            Locale::En => Visit {
                url: String::from_str("/en/contact"),
                title: String::from_str("Website feedback"),
                form: Some(locale),
                stage: Stage::AwaitingPage,
            },
            Locale::Es => Visit {
                url: String::from_str("/es/contact"),
                title: String::from_str("Comentarios sobre el sitio web"),
                form: Some(locale),
                stage: Stage::AwaitingPage,
            },
        }
    }

    /// What follows the page of the form, once the page has been found valid.
    fn submit_or_fail(&self, response: &PageFetchResult) -> (next: Next)
        ensures
            next@ == after_form_page(self@.url, response@),
    {
        match &response.status {
            FetchStatus::Success(html) => {
                // Scrape the HTML to get the value needed in order to POST to the contact form.
                match get_form_value(html.as_str(), "form_build_id") {
                    Some(token) => Next::Post(feedback_submission(self.url.as_str(), token)),
                    None => {
                        let reason = response.request_url.clone().concat(
                            ": no form_build_id on page",
                        );
                        Next::Fail(Failure { kind: FailureKind::MissingToken, reason })
                    },
                }
            },
            _ => {
                let failure = failure_of(response);
                Next::Fail(failure.unwrap())
            },
        }
    }

    /// Takes the response to the request that the visit waits for, and says what follows.
    /// A visit begins with a GET of its path. A response that comes after the visit has
    /// ended changes nothing.
    pub fn advance(&mut self, response: &PageFetchResult) -> (step: Step)
        ensures
            step@ == step_of(old(self)@, response@),
            final(self)@ == old(self)@.after(step@.next),
    {
        match self.stage {
            Stage::AwaitingPage => {
                match validate_and_load_static_assets(response, self.title.as_str()) {
                    Err(failure) => {
                        self.stage = Stage::Done;
                        Step { outcome: None, assets: no_assets(), next: Next::Fail(failure) }
                    },
                    Ok(assets) => {
                        let next = match self.form {
                            Some(locale) => self.submit_or_fail(response),
                            None => Next::Succeed,
                        };
                        self.stage = match (&next, self.form) {
                            (Next::Post(_), Some(locale)) => Stage::AwaitingSubmission(locale),
                            _ => Stage::Done,
                        };
                        Step { outcome: None, assets, next }
                    },
                }
            },
            Stage::AwaitingSubmission(locale) => {
                self.stage = Stage::Done;
                match &response.status {
                    FetchStatus::Success(html) => Step {
                        outcome: Some(classify_submission(html.as_str(), locale)),
                        assets: load_static_elements(html.as_str()),
                        next: Next::Succeed,
                    },
                    _ => {
                        let failure = failure_of(response);
                        Step { outcome: None, assets: no_assets(), next: Next::Fail(failure.unwrap()) }
                    },
                }
            },
            Stage::Done => Step { outcome: None, assets: no_assets(), next: Next::Nothing },
        }
    }
}

/// A visit to a page without a form ends well where the page came and carries the title: it
/// asks for the static elements of the page and for nothing else.
pub proof fn lemma_valid_page_succeeds(visit: VisitView, request_url: Seq<char>, html: Seq<char>)
    requires
        visit.stage == Stage::AwaitingPage,
        visit.form is None,
        has_title(html, visit.title),
    ensures
        step_of(
            visit,
            PageFetchResultView { request_url, status: FetchStatusView::Success(html) },
        ) == (StepView {
            outcome: None,
            assets: static_elements(html),
            next: NextView::Succeed,
        }),
{
}

/// A visit fails where its page does not come or lacks the title, and then asks for no asset
/// and submits nothing.
pub proof fn lemma_invalid_page_fails(visit: VisitView, response: PageFetchResultView)
    requires
        visit.stage == Stage::AwaitingPage,
        !(response.status matches FetchStatusView::Success(html) && has_title(html, visit.title)),
    ensures
        step_of(visit, response).next is Fail,
        step_of(visit, response).assets.len() == 0,
        response.status is Success ==> step_of(visit, response).next == NextView::Fail(
            title_failure(response.request_url, visit.title),
        ),
        visit.after(step_of(visit, response).next).stage == Stage::Done,
{
}

/// A visit to a form fails where the page is valid but holds no token, after it has asked
/// for the assets of the page; it submits nothing.
pub proof fn lemma_missing_token_fails(visit: VisitView, request_url: Seq<char>, html: Seq<char>)
    requires
        visit.stage == Stage::AwaitingPage,
        visit.form is Some,
        has_title(html, visit.title),
        form_value(html, "form_build_id"@) is None,
    ensures
        step_of(
            visit,
            PageFetchResultView { request_url, status: FetchStatusView::Success(html) },
        ) == (StepView {
            outcome: None,
            assets: static_elements(html),
            next: NextView::Fail(token_failure(request_url)),
        }),
{
}

/// A visit to a form submits the form where the page is valid and holds a token: the
/// submission goes to the path of the page and repeats the token.
pub proof fn lemma_token_is_submitted(
    visit: VisitView,
    request_url: Seq<char>,
    html: Seq<char>,
    token: Seq<char>,
)
    requires
        visit.stage == Stage::AwaitingPage,
        visit.form is Some,
        has_title(html, visit.title),
        form_value(html, "form_build_id"@) == Some(token),
    ensures
        step_of(
            visit,
            PageFetchResultView { request_url, status: FetchStatusView::Success(html) },
        ).next == NextView::Post(feedback_form(visit.url, token)),
        feedback_form(visit.url, token).fields[4] == ("form_build_id"@, token),
        feedback_form(visit.url, token).fields.len() == 7,
{
}

/// A visit ends well whatever the page says that answers its submission: a throttled
/// submission is noted and is no failure, and the assets of the page are asked for.
pub proof fn lemma_answered_submission_succeeds(
    visit: VisitView,
    locale: Locale,
    request_url: Seq<char>,
    html: Seq<char>,
)
    requires
        visit.stage == Stage::AwaitingSubmission(locale),
    ensures
        step_of(
            visit,
            PageFetchResultView { request_url, status: FetchStatusView::Success(html) },
        ) == (StepView {
            outcome: Some(submission_outcome(html, locale)),
            assets: static_elements(html),
            next: NextView::Succeed,
        }),
{
}

/// A visit is over after two responses at most, and a step that fails or succeeds ends it.
/// A visit that is over answers with nothing and stays as it is.
pub proof fn lemma_visit_ends(visit: VisitView, first: PageFetchResultView, second: PageFetchResultView)
    ensures
        ({
            let next = step_of(visit, first).next;
            let then = visit.after(next);
            &&& next is Post <==> then.stage is AwaitingSubmission
            &&& next is Post ==> visit.stage == Stage::AwaitingPage && visit.form is Some
            &&& then.after(step_of(then, second).next).stage == Stage::Done
            &&& visit.stage == Stage::Done ==> next == NextView::Nothing && then == visit
        }),
{
}

} // verus!
