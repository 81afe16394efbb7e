use vstd::prelude::*;

use crate::error::Error;
use crate::models::Memorial;
use crate::models::MemorialV;
use crate::models::spec_is_valid;
use crate::models::spec_wf;
use crate::text::last_segment;
use crate::text::parse_u64_of;
use crate::text::last_nonempty_segment;
use crate::text::parse_u64;

verus! {

/// What the text-content strategy yields on `markup` for a locator: the
/// text of the first element the locator matches, in tree order, with the
/// element's text nodes joined by single spaces and the result trimmed;
/// `None` when no element matches or the locator is not a valid selector.
/// A function of the two argument strings alone.
pub uninterp spec fn sel_text_of(markup: Seq<char>, locator: Seq<char>) -> Option<Seq<char>>;

/// What the attribute strategy yields on `markup` for a locator: the value
/// of the named attribute on the first element the locator matches; `None`
/// when no element matches, the attribute is absent, or the locator is not
/// a valid selector.  A function of the three argument strings alone.
pub uninterp spec fn sel_attr_of(
    markup: Seq<char>,
    locator: Seq<char>,
    attribute: Seq<char>,
) -> Option<Seq<char>>;

/// Relies on scraper: `Html::parse_document` (HTML5 parsing tolerates any
/// input), `Selector::parse`, the `select` iterator in tree order, and
/// `ElementRef::text`.  The result depends on the markup and locator alone.
#[verifier::external_body]
fn select_first_text(markup: &str, locator: &str) -> (r: Option<String>)
    ensures
        r is Some <==> sel_text_of(markup@, locator@) is Some,
        r matches Some(s) ==> sel_text_of(markup@, locator@) == Some(s@),
{
    let document = scraper::Html::parse_document(markup);
    let selector = match scraper::Selector::parse(locator) {
        Ok(sel) => sel,
        Err(_) => return None,
    };
    let element = document.select(&selector).next()?;
    let parts: Vec<&str> = element.text().collect();
    Some(parts.join(" ").trim().to_string())
}

/// Relies on scraper: `Html::parse_document`, `Selector::parse`, the
/// `select` iterator in tree order, and `ElementRef::attr`.  The result
/// depends on the markup, locator and attribute name alone.
#[verifier::external_body]
fn select_first_attr(markup: &str, locator: &str, attribute: &str) -> (r: Option<String>)
    ensures
        r is Some <==> sel_attr_of(markup@, locator@, attribute@) is Some,
        r matches Some(s) ==> sel_attr_of(markup@, locator@, attribute@) == Some(s@),
{
    let document = scraper::Html::parse_document(markup);
    let selector = match scraper::Selector::parse(locator) {
        Ok(sel) => sel,
        Err(_) => return None,
    };
    let element = document.select(&selector).next()?;
    element.attr(attribute).map(|v| v.to_string())
}

/// One fallback rule: a locator plus the strategy that reads a value from
/// the element it matches.
pub enum Rule {
    /// Take the matched element's text content.
    TextContent { locator: String },
    /// Take the value of the named attribute on the matched element.
    Attribute { locator: String, attribute: String },
}

/// The mathematical value of a `Rule`.
pub enum RuleV {
    TextContent { locator: Seq<char> },
    Attribute { locator: Seq<char>, attribute: Seq<char> },
}

impl View for Rule {
    type V = RuleV;

    open spec fn view(&self) -> RuleV {
        match self {
            Rule::TextContent { locator } => RuleV::TextContent { locator: locator@ },
            Rule::Attribute { locator, attribute } => RuleV::Attribute {
                locator: locator@,
                attribute: attribute@,
            },
        }
    }
}

impl DeepView for Rule {
    type V = RuleV;

    open spec fn deep_view(&self) -> RuleV {
        self.view()
    }
}

/// The fields a fallback rule set extracts.
#[derive(Clone, Copy, Debug, PartialEq, Eq, Structural)]
pub enum Field {
    Name,
    BirthDate,
    BirthLocation,
    DeathDate,
    DeathLocation,
    BurialLocation,
    PlotDetails,
}

/// The fixed rule table: for each field, its fallback rules in priority
/// order.  The name falls back from the structured-metadata marker to the
/// heading class to the bio-info full-name class; each optional field has
/// its metadata marker first and its semantic class second.
pub open spec fn rules_spec(f: Field) -> Seq<RuleV> {
    match f {
        Field::Name => seq![
            RuleV::TextContent { locator: "[itemprop='name']"@ },
            RuleV::TextContent { locator: "h1.name"@ },
            RuleV::TextContent { locator: ".bio-info .full-name"@ },
        ],
        Field::BirthDate => seq![
            RuleV::TextContent { locator: "[itemprop='birthDate']"@ },
            RuleV::TextContent { locator: ".birth-info .date"@ },
        ],
        Field::BirthLocation => seq![
            RuleV::TextContent { locator: "[itemprop='birthPlace']"@ },
            RuleV::TextContent { locator: ".birth-info .location"@ },
        ],
        Field::DeathDate => seq![
            RuleV::TextContent { locator: "[itemprop='deathDate']"@ },
            RuleV::TextContent { locator: ".death-info .date"@ },
        ],
        Field::DeathLocation => seq![
            RuleV::TextContent { locator: "[itemprop='deathPlace']"@ },
            RuleV::TextContent { locator: ".death-info .location"@ },
        ],
        Field::BurialLocation => seq![
            RuleV::TextContent { locator: "[itemprop='burialPlace']"@ },
            RuleV::TextContent { locator: ".burial-info .location"@ },
        ],
        Field::PlotDetails => seq![
            RuleV::TextContent { locator: ".plot-details"@ },
            RuleV::TextContent { locator: ".grave-location"@ },
        ],
    }
}

/// Build the fallback rules of one field, in priority order.
pub fn rule_table(f: Field) -> (v: Vec<Rule>)
    ensures
        v.deep_view() == rules_spec(f),
{
    let mut v: Vec<Rule> = Vec::new();
    match f {
        Field::Name => {
            v.push(Rule::TextContent { locator: "[itemprop='name']".to_owned() });
            v.push(Rule::TextContent { locator: "h1.name".to_owned() });
            v.push(Rule::TextContent { locator: ".bio-info .full-name".to_owned() });
        },
        Field::BirthDate => {
            v.push(Rule::TextContent { locator: "[itemprop='birthDate']".to_owned() });
            v.push(Rule::TextContent { locator: ".birth-info .date".to_owned() });
        },
        Field::BirthLocation => {
            v.push(Rule::TextContent { locator: "[itemprop='birthPlace']".to_owned() });
            v.push(Rule::TextContent { locator: ".birth-info .location".to_owned() });
        },
        Field::DeathDate => {
            v.push(Rule::TextContent { locator: "[itemprop='deathDate']".to_owned() });
            v.push(Rule::TextContent { locator: ".death-info .date".to_owned() });
        },
        Field::DeathLocation => {
            v.push(Rule::TextContent { locator: "[itemprop='deathPlace']".to_owned() });
            v.push(Rule::TextContent { locator: ".death-info .location".to_owned() });
        },
        Field::BurialLocation => {
            v.push(Rule::TextContent { locator: "[itemprop='burialPlace']".to_owned() });
            v.push(Rule::TextContent { locator: ".burial-info .location".to_owned() });
        },
        Field::PlotDetails => {
            v.push(Rule::TextContent { locator: ".plot-details".to_owned() });
            v.push(Rule::TextContent { locator: ".grave-location".to_owned() });
        },
    }
    proof {
        assert(v.deep_view() =~= rules_spec(f));
    }
    v
}

/// What one rule yields on `markup`.
pub open spec fn rule_result(markup: Seq<char>, rule: RuleV) -> Option<Seq<char>> {
    match rule {
        RuleV::TextContent { locator } => sel_text_of(markup, locator),
        RuleV::Attribute { locator, attribute } => sel_attr_of(markup, locator, attribute),
    }
}

/// What an ordered rule chain yields: the first rule whose result is
/// non-empty wins; an empty or missing result falls through to the next.
pub open spec fn chain_result(markup: Seq<char>, rules: Seq<RuleV>) -> Option<Seq<char>>
    decreases rules.len(),
{
    if rules.len() == 0 {
        None
    } else {
        match rule_result(markup, rules[0]) {
            Some(t) => if t.len() > 0 {
                Some(t)
            } else {
                chain_result(markup, rules.drop_first())
            },
            None => chain_result(markup, rules.drop_first()),
        }
    }
}

/// A chain never yields an empty value.
pub proof fn lemma_chain_result_nonempty(markup: Seq<char>, rules: Seq<RuleV>)
    ensures
        chain_result(markup, rules) matches Some(t) ==> t.len() > 0,
    decreases rules.len(),
{
    if rules.len() > 0 {
        lemma_chain_result_nonempty(markup, rules.drop_first());
    }
}

/// Evaluate one rule on the markup.
fn eval_rule(markup: &str, rule: &Rule) -> (r: Option<String>)
    ensures
        r.deep_view() == rule_result(markup@, rule@),
{
    match rule {
        Rule::TextContent { locator } => select_first_text(markup, locator.as_str()),
        Rule::Attribute { locator, attribute } => select_first_attr(
            markup,
            locator.as_str(),
            attribute.as_str(),
        ),
    }
}

/// Evaluate a rule chain on the markup: the first rule that yields
/// non-empty trimmed text wins; later rules are not tried.
fn eval_chain(markup: &str, rules: &Vec<Rule>) -> (r: Option<String>)
    ensures
        r.deep_view() == chain_result(markup@, rules.deep_view()),
        r matches Some(s) ==> s@.len() > 0,
{
    let n = rules.len();
    proof {
        assert(rules.deep_view().skip(0) =~= rules.deep_view());
    }
    let mut i: usize = 0;
    while i < n
        invariant
            n == rules@.len(),
            0 <= i <= n,
            chain_result(markup@, rules.deep_view()) == chain_result(
                markup@,
                rules.deep_view().skip(i as int),
            ),
        decreases n - i,
    {
        proof {
            assert(rules.deep_view().skip(i as int)[0] == rules@[i as int].deep_view());
            assert(rules.deep_view().skip(i as int).drop_first() =~= rules.deep_view().skip(
                i + 1,
            ));
        }
        let r = eval_rule(markup, &rules[i]);
        if let Some(s) = r {
            if !s.as_str().is_empty() {
                return Some(s);
            }
        }
        i += 1;
    }
    proof {
        assert(rules.deep_view().skip(n as int) =~= Seq::<RuleV>::empty());
    }
    None
}

/// The locator and attribute of the canonical-URL metadata element.
pub open spec fn id_rule() -> RuleV {
    RuleV::Attribute { locator: "meta[property='og:url']"@, attribute: "content"@ }
}

/// The identifier the page metadata resolves to: the last non-empty path
/// segment of the canonical URL, read as a decimal number; absent when the
/// metadata element, the attribute, or a numeric trailing segment is not
/// there.  Never fatal for extraction.
pub open spec fn resolved_id(markup: Seq<char>) -> Option<u64> {
    match rule_result(markup, id_rule()) {
        Some(v) => match last_segment(v) {
            Some(seg) => parse_u64_of(seg),
            None => None,
        },
        None => None,
    }
}

/// Resolve the numeric identifier from the canonical-URL metadata.
fn resolve_id(html: &str) -> (r: Option<u64>)
    ensures
        r == resolved_id(html@),
{
    let content = match select_first_attr(html, "meta[property='og:url']", "content") {
        Some(v) => v,
        None => {
            return None;
        },
    };
    let seg = match last_nonempty_segment(content.as_str()) {
        Some(sg) => sg,
        None => {
            return None;
        },
    };
    parse_u64(seg.as_str())
}

/// Whether extraction succeeds on `markup`: some name rule yields text.
pub open spec fn extract_ok(markup: Seq<char>) -> bool {
    chain_result(markup, rules_spec(Field::Name)) is Some
}

/// The record extraction produces on success.
pub open spec fn extracted(markup: Seq<char>) -> MemorialV {
    MemorialV {
        id: resolved_id(markup),
        name: chain_result(markup, rules_spec(Field::Name)).unwrap(),
        birth_date: chain_result(markup, rules_spec(Field::BirthDate)),
        birth_location: chain_result(markup, rules_spec(Field::BirthLocation)),
        death_date: chain_result(markup, rules_spec(Field::DeathDate)),
        death_location: chain_result(markup, rules_spec(Field::DeathLocation)),
        burial_location: chain_result(markup, rules_spec(Field::BurialLocation)),
        plot_details: chain_result(markup, rules_spec(Field::PlotDetails)),
    }
}

/// Extract a structured memorial record from page markup.
///
/// Each field is derived by its fallback rule chain; the name is mandatory
/// and its absence fails the whole extraction.  The identifier is resolved
/// independently and its absence is never fatal.
pub fn parse_page(html: &str) -> (r: Result<Memorial, Error>)
    ensures
        r is Ok <==> extract_ok(html@),
        r matches Ok(m) ==> m@ == extracted(html@),
        r matches Ok(m) ==> spec_wf(m@),
        r matches Err(e) ==> e matches Error::MissingField(f) && f@ == "name"@,
{
    let name_table = rule_table(Field::Name);
    let name = match eval_chain(html, &name_table) {
        Some(n) => n,
        None => {
            return Err(Error::MissingField("name".to_owned()));
        },
    };
    let mut memorial = Memorial::new();
    memorial.name = name;
    let birth_date_table = rule_table(Field::BirthDate);
    memorial.birth_date = eval_chain(html, &birth_date_table);
    let birth_location_table = rule_table(Field::BirthLocation);
    memorial.birth_location = eval_chain(html, &birth_location_table);
    let death_date_table = rule_table(Field::DeathDate);
    memorial.death_date = eval_chain(html, &death_date_table);
    let death_location_table = rule_table(Field::DeathLocation);
    memorial.death_location = eval_chain(html, &death_location_table);
    let burial_location_table = rule_table(Field::BurialLocation);
    memorial.burial_location = eval_chain(html, &burial_location_table);
    let plot_details_table = rule_table(Field::PlotDetails);
    memorial.plot_details = eval_chain(html, &plot_details_table);
    memorial.id = resolve_id(html);
    Ok(memorial)
}

/// Law: markup on which a name rule yields text while no optional-field
/// rule and no identifier metadata does extracts to a record holding that
/// name alone, and such a record is not yet valid for downstream use.
pub proof fn lemma_name_only_extraction(markup: Seq<char>)
    requires
        chain_result(markup, rules_spec(Field::Name)) is Some,
        chain_result(markup, rules_spec(Field::BirthDate)) is None,
        chain_result(markup, rules_spec(Field::BirthLocation)) is None,
        chain_result(markup, rules_spec(Field::DeathDate)) is None,
        chain_result(markup, rules_spec(Field::DeathLocation)) is None,
        chain_result(markup, rules_spec(Field::BurialLocation)) is None,
        chain_result(markup, rules_spec(Field::PlotDetails)) is None,
        rule_result(markup, id_rule()) is None,
    ensures
        extract_ok(markup),
        extracted(markup).name == chain_result(markup, rules_spec(Field::Name)).unwrap(),
        extracted(markup).id is None,
        extracted(markup).birth_date is None,
        extracted(markup).birth_location is None,
        extracted(markup).death_date is None,
        extracted(markup).death_location is None,
        extracted(markup).burial_location is None,
        extracted(markup).plot_details is None,
        !spec_is_valid(extracted(markup)),
{
}

/// Law: a record extracted from markup that yields a name together with a
/// birth date, a death date or a burial location is valid.
pub proof fn lemma_core_fields_give_validity(markup: Seq<char>)
    requires
        chain_result(markup, rules_spec(Field::Name)) is Some,
        chain_result(markup, rules_spec(Field::BirthDate)) is Some || chain_result(
            markup,
            rules_spec(Field::DeathDate),
        ) is Some || chain_result(markup, rules_spec(Field::BurialLocation)) is Some,
    ensures
        extract_ok(markup),
        spec_is_valid(extracted(markup)),
{
    lemma_chain_result_nonempty(markup, rules_spec(Field::Name));
}

/// Law: markup on which no name rule yields text fails extraction, so no
/// record is produced for it.
pub proof fn lemma_missing_name_fails(markup: Seq<char>)
    requires
        chain_result(markup, rules_spec(Field::Name)) is None,
    ensures
        !extract_ok(markup),
{
}

/// Law: identifier resolution never decides extraction success, which is
/// settled by the name rules alone, whatever the canonical-URL metadata
/// held.
pub proof fn lemma_id_resolution_nonfatal(markup: Seq<char>)
    ensures
        extract_ok(markup) <==> chain_result(markup, rules_spec(Field::Name)) is Some,
{
}

} // verus!
