//! What a page of the site says: whether it carries the expected title, which static assets it
//! refers to, what a form field holds, and whether a submission was throttled.

use crate::attribute::{Attribute, Shape};
use crate::catalog::Locale;
use crate::text::{
    chars_of, contains, lemma_occurs_between, lemma_occurs_parts, occurs_at, occurs_in, stands_at,
    texts,
};
use vstd::prelude::*;
use vstd::string::StringExecFns;

verus! {

/// The page's title element begins with `title`.
pub open spec fn has_title(html: Seq<char>, title: Seq<char>) -> bool {
    occurs_in(html, "<title>"@ + title)
}

/// A valid title on this website starts with "<title>foo", where "foo" is the expected
/// title text. Returns true if the expected title is set, otherwise returns false.
pub fn valid_title(html: &str, title: &str) -> (valid: bool)
    ensures
        valid == has_title(html@, title@),
{
    let wanted = String::from_str("<title>").concat(title);
    contains(&chars_of(html), &chars_of(wanted.as_str()))
}

/// A page whose title element begins with `title` is valid, whatever stands before the
/// element and whatever follows the title in it or behind it.
pub proof fn lemma_title_accepted(before: Seq<char>, title: Seq<char>, after: Seq<char>)
    ensures
        has_title(before + "<title>"@ + title + after, title),
{
    lemma_occurs_between(before, "<title>"@ + title, after);
    assert(before + ("<title>"@ + title) + after =~= before + "<title>"@ + title + after);
}

/// A page is valid if and only if, somewhere in it, the opening of a title element stands
/// with `title` right behind it.
pub proof fn lemma_title_behind_marker(html: Seq<char>, title: Seq<char>)
    ensures
        has_title(html, title) <==> exists|at: int|
            occurs_at(html, at, "<title>"@) && #[trigger] occurs_at(html, at + 7, title),
{
    reveal_strlit("<title>");
    if has_title(html, title) {
        let at = choose|at: int| occurs_at(html, at, "<title>"@ + title);
        lemma_occurs_parts(html, at, "<title>"@, title);
        assert(occurs_at(html, at, "<title>"@) && occurs_at(html, at + 7, title));
    }
    if exists|at: int| occurs_at(html, at, "<title>"@) && #[trigger] occurs_at(html, at + 7, title) {
        let at = choose|at: int|
            occurs_at(html, at, "<title>"@) && #[trigger] occurs_at(html, at + 7, title);
        lemma_occurs_parts(html, at, "<title>"@, title);
    }
}

/// A page is not valid where no title element opens with `title`: where the text behind
/// each opening differs from it, be it by one character.
pub proof fn lemma_title_rejected(html: Seq<char>, title: Seq<char>)
    requires
        forall|at: int| #[trigger]
            occurs_at(html, at, "<title>"@) ==> !occurs_at(html, at + 7, title),
    ensures
        !has_title(html, title),
{
    lemma_title_behind_marker(html, title);
}

/// A page that is valid for a title is valid for every beginning of that title: what follows
/// the expected text in the element is not looked at.
pub proof fn lemma_title_beginning(html: Seq<char>, beginning: Seq<char>, rest: Seq<char>)
    requires
        has_title(html, beginning + rest),
    ensures
        has_title(html, beginning),
{
    let at = choose|at: int| occurs_at(html, at, "<title>"@ + (beginning + rest));
    assert("<title>"@ + (beginning + rest) =~= ("<title>"@ + beginning) + rest);
    lemma_occurs_parts(html, at, "<title>"@ + beginning, rest);
}

/// A path into the site's own theme and module directories.
pub open spec fn is_local(path: Seq<char>) -> bool {
    occurs_at(path, 0, "/sites"@) || occurs_at(path, 0, "/core"@)
}

/// Those of `paths` that are local, in their order.
pub open spec fn local_only(paths: Seq<Seq<char>>) -> Seq<Seq<char>> {
    paths.filter(|path: Seq<char>| is_local(path))
}

/// The shape of a `src` attribute, which names an image or a script.
pub open spec fn source_shape() -> Shape {
    Shape { lead: "src="@, stem: Seq::empty(), single: false }
}

/// The shape of an `href` attribute that names an aggregated stylesheet.
pub open spec fn stylesheet_shape() -> Shape {
    Shape { lead: "href="@, stem: "/sites/default/files/css/"@, single: false }
}

/// The static assets that a page refers to: the local ones among the values of its `src`
/// attributes, then its aggregated stylesheets, each group in the order of the page.
pub open spec fn static_elements(html: Seq<char>) -> Seq<Seq<char>> {
    local_only(source_shape().values(html)) + stylesheet_shape().values(html)
}

/// Whether `path` leads into the site's own theme and module directories.
pub fn is_local_path(path: &str) -> (local: bool)
    ensures
        local == is_local(path@),
{
    let chars = chars_of(path);
    stands_at(&chars, 0, &chars_of("/sites")) || stands_at(&chars, 0, &chars_of("/core"))
}

/// Filtering one more path keeps it or drops it, and leaves the paths before it as they were.
proof fn lemma_local_only_step(paths: Seq<Seq<char>>, i: int)
    requires
        0 <= i < paths.len(),
    ensures
        local_only(paths.take(i + 1)) == if is_local(paths[i]) {
            local_only(paths.take(i)).push(paths[i])
        } else {
            local_only(paths.take(i))
        },
{
    reveal(Seq::filter);
    assert(paths.take(i + 1).drop_last() =~= paths.take(i));
}

/// Finds all local static elements on the page, for the caller to load them as a browser
/// would. This default profile only has local assets, so simple patterns are enough.
pub fn load_static_elements(html: &str) -> (urls: Vec<String>)
    ensures
        texts(urls@) == static_elements(html@),
{
    proof {
        reveal_strlit("");
        assert(""@ =~= Seq::<char>::empty());
    }
    // The values of all src attributes name the image and script assets.
    let image = Attribute::new("src=", "", false);
    let mut sources = image.values(html);
    let ghost all = source_shape().values(html@);
    let mut urls: Vec<String> = Vec::new();
    assert(all.take(0) =~= Seq::<Seq<char>>::empty());
    assert(local_only(all.take(0)) =~= texts(urls@)) by {
        reveal(Seq::filter);
    }
    let mut i: usize = 0;
    while i < sources.len()
        invariant
            i <= sources.len(),
            texts(sources@) == all,
            texts(urls@) == local_only(all.take(i as int)),
        decreases sources.len() - i,
    {
        proof {
            lemma_local_only_step(all, i as int);
            assert(texts(sources@)[i as int] == sources@[i as int]@);
        }
        if is_local_path(sources[i].as_str()) {
            let url = sources[i].clone();
            assert(texts(urls@.push(url)) =~= texts(urls@).push(url@));
            urls.push(url);
        }
        i += 1;
    }
    assert(all.take(sources.len() as int) =~= all);

    // The values of the href attributes under the aggregate directory name the css assets.
    let css = Attribute::new("href=", "/sites/default/files/css/", false);
    let mut sheets = css.values(html);
    assert(texts(urls@ + sheets@) =~= texts(urls@) + texts(sheets@));
    urls.append(&mut sheets);
    urls
}

/// Every static element of a page is local: the value of a `src` attribute that leads
/// elsewhere is not among them.
pub proof fn lemma_static_elements_local(html: Seq<char>)
    ensures
        forall|i: int|
            0 <= i < static_elements(html).len() ==> is_local(#[trigger] static_elements(html)[i]),
{
    let sources = local_only(source_shape().values(html));
    let sheets = stylesheet_shape().values(html);
    let spans = stylesheet_shape().matches(html);
    stylesheet_shape().lemma_matches_cover(html, 0);
    reveal_strlit("/sites/default/files/css/");
    reveal_strlit("/sites");
    assert forall|i: int| 0 <= i < static_elements(html).len() implies is_local(
        #[trigger] static_elements(html)[i],
    ) by {
        if i < sources.len() {
            source_shape().values(html).lemma_filter_pred(|path: Seq<char>| is_local(path), i);
        } else {
            let span = spans[i - sources.len()];
            let path = sheets[i - sources.len()];
            assert(stylesheet_shape().is_match(html, span));
            let from = stylesheet_shape().value_start(span.at);
            assert(path == html.subrange(from, span.end));
            assert(path.subrange(0, 6) =~= html.subrange(from, from + 25).subrange(0, 6));
            assert("/sites/default/files/css/"@.subrange(0, 6) =~= "/sites"@);
        }
    }
}

/// A page has as many static elements as it has matching `src` attributes with a local
/// value and matching `href` attributes of aggregated stylesheets, taken together.
pub proof fn lemma_static_elements_count(html: Seq<char>)
    ensures
        static_elements(html).len() == local_only(source_shape().values(html)).len()
            + stylesheet_shape().matches(html).len(),
        local_only(source_shape().values(html)).len() <= source_shape().matches(html).len(),
{
    source_shape().values(html).lemma_filter_len(|path: Seq<char>| is_local(path));
}

/// Looking twice at one page gives the same static elements: two lists that both are what
/// `load_static_elements` returns for a page say the same, entry by entry.
pub proof fn lemma_static_elements_repeat(html: Seq<char>, first: Seq<String>, second: Seq<String>)
    requires
        texts(first) == static_elements(html),
        texts(second) == static_elements(html),
    ensures
        first.len() == second.len(),
        forall|i: int| 0 <= i < first.len() ==> (#[trigger] first[i])@ == second[i]@,
{
    assert(texts(first).len() == first.len());
    assert(texts(second).len() == second.len());
    assert forall|i: int| 0 <= i < first.len() implies (#[trigger] first[i])@ == second[i]@ by {
        assert(texts(first)[i] == first[i]@);
        assert(texts(second)[i] == second[i]@);
    }
}

/// The shape of the form field `name`, with its value in single or in double quotes.
pub open spec fn field_shape(name: Seq<char>) -> Shape {
    Shape { lead: "name=\""@ + name + "\" value="@, stem: Seq::empty(), single: true }
}

/// What the first form field `name` of the page holds, if the page has such a field.
pub open spec fn form_value(html: Seq<char>, name: Seq<char>) -> Option<Seq<char>> {
    field_shape(name).first_value(html)
}

/// Gets the value of a named form element.
pub fn get_form_value(html: &str, name: &str) -> (value: Option<String>)
    ensures
        match value {
            Some(v) => form_value(html@, name@) == Some(v@),
            None => form_value(html@, name@) is None,
        },
{
    proof {
        reveal_strlit("");
        assert(""@ =~= Seq::<char>::empty());
    }
    let lead = String::from_str("name=\"").concat(name).concat("\" value=");
    let field = Attribute::new(lead.as_str(), "", true);
    field.first_value(html)
}

/// The field as it is written in a form, with `token` between the quotes.
pub open spec fn written_field(name: Seq<char>, open: char, token: Seq<char>, close: char) -> Seq<
    char,
> {
    "name=\""@ + name + "\" value="@ + seq![open] + token + seq![close]
}

/// Where a field is written into a page, in single or in double quotes, and the page holds
/// no such field before it, the value of the field is its token.
pub proof fn lemma_form_value_found(
    before: Seq<char>,
    name: Seq<char>,
    open: char,
    token: Seq<char>,
    close: char,
    after: Seq<char>,
)
    requires
        open == '"' || open == '\'',
        close == '"' || close == '\'',
        forall|k: int|
            0 <= k < token.len() ==> #[trigger] token[k] != '"' && token[k] != '\'' && token[k]
                != '\n',
        forall|at: int|
            0 <= at < before.len() ==> !#[trigger] occurs_at(
                before + written_field(name, open, token, close) + after,
                at,
                field_shape(name).lead,
            ),
    ensures
        form_value(before + written_field(name, open, token, close) + after, name) == Some(token),
{
    let shape = field_shape(name);
    assert(token.subrange(0, 0) =~= shape.stem);
    assert(shape.written(open, token, close) == written_field(name, open, token, close));
    shape.lemma_first_written(before, open, token, close, after);
}

/// A page in which the name of a field stands nowhere as the name of a form element has
/// no value for it.
pub proof fn lemma_form_value_absent(html: Seq<char>, name: Seq<char>)
    requires
        !occurs_in(html, "name=\""@ + name + "\""@),
    ensures
        form_value(html, name) is None,
{
    let shape = field_shape(name);
    reveal_strlit("\" value=");
    reveal_strlit("\"");
    reveal_strlit(" value=");
    assert("\" value="@ =~= "\""@ + " value="@);
    assert(shape.lead =~= ("name=\""@ + name + "\""@) + " value="@);
    assert forall|at: int| !occurs_at(html, at, shape.lead) by {
        lemma_occurs_parts(html, at, "name=\""@ + name + "\""@, " value="@);
    }
    shape.lemma_no_lead_no_value(html);
}

/// What became of a submitted form.
#[derive(Clone, Copy, Debug, PartialEq, Eq, Structural)]
pub enum SubmissionOutcome {
    Accepted,
    Throttled,
}

/// The words with which the site, in `locale`, turns down one message too many.
pub open spec fn throttle_phrase(locale: Locale) -> Seq<char> {
    match locale {
        Locale::En => "You cannot send more than"@,
        Locale::Es => "No le está permitido enviar más"@,
    }
}

/// What the page that answers a submission says of it.
pub open spec fn submission_outcome(html: Seq<char>, locale: Locale) -> SubmissionOutcome {
    if occurs_in(html, throttle_phrase(locale)) {
        SubmissionOutcome::Throttled
    } else {
        SubmissionOutcome::Accepted
    }
}

/// Tells a throttled submission from an accepted one. The site throttles how many times an
/// address can submit the contact form; both outcomes are valid events of a load test.
pub fn classify_submission(html: &str, locale: Locale) -> (outcome: SubmissionOutcome)
    ensures
        outcome == submission_outcome(html@, locale),
{
    let phrase = match locale {
        Locale::En => "You cannot send more than",
        Locale::Es => "No le está permitido enviar más",
    };
    if contains(&chars_of(html), &chars_of(phrase)) {
        SubmissionOutcome::Throttled
    } else {
        SubmissionOutcome::Accepted
    }
}

} // verus!
