//! Extracts request headers into the metadata for the filters that follow.

use crate::filter::{text_of, BodyAccess, BodyMode, FilterAction, FilterError, HttpFilterContext};
use crate::headers::{
    header_text, headers_of, invalid_name_message, is_header_name, read_header,
};
use crate::pattern::{compiled, compiled_on, matched_texts, regex_error_message};
use crate::text::{decimal, decimal_text};
use vstd::prelude::*;
use vstd::utf8::encode_utf8;

verus! {

/// Which header to read, where to put its value and what the value has to be like.
pub struct HeaderExtractionRule {
    /// The header's name.
    pub name: String,
    /// The metadata key under which the value is stored.
    pub metadata_key: String,
    /// The value that is taken where the header is absent.
    pub default: Option<String>,
    /// Whether a request without the header, and without a default, is an error.
    pub required: bool,
    /// A regular expression that has to match somewhere in the value.
    pub pattern: Option<String>,
    /// The greatest number of bytes that the value may have.
    pub max_length: Option<usize>,
}

/// What every extracted value has to be like.
pub struct ValidationRules {
    pub pattern: Option<String>,
    pub max_length: Option<usize>,
}

/// The settings of a [`ContextExtractorFilter`].
pub struct ContextExtractorConfig {
    pub headers: Vec<HeaderExtractionRule>,
    pub validation: Option<ValidationRules>,
}

/// What a [`HeaderExtractionRule`] says.
pub struct RuleView {
    pub name: Seq<char>,
    pub metadata_key: Seq<char>,
    pub default: Option<Seq<char>>,
    pub required: bool,
    pub pattern: Option<Seq<char>>,
    pub max_length: Option<usize>,
}

/// What [`ValidationRules`] say.
pub struct ValidationView {
    pub pattern: Option<Seq<char>>,
    pub max_length: Option<usize>,
}

/// What a [`ContextExtractorConfig`] says.
pub struct ConfigView {
    pub headers: Seq<RuleView>,
    pub validation: Option<ValidationView>,
}

impl View for HeaderExtractionRule {
    type V = RuleView;

    open spec fn view(&self) -> RuleView {
        RuleView {
            name: self.name@,
            metadata_key: self.metadata_key@,
            default: text_of(self.default),
            required: self.required,
            pattern: text_of(self.pattern),
            max_length: self.max_length,
        }
    }
}

impl View for ValidationRules {
    type V = ValidationView;

    open spec fn view(&self) -> ValidationView {
        ValidationView { pattern: text_of(self.pattern), max_length: self.max_length }
    }
}

/// What optional validation rules say.
pub open spec fn validation_of(validation: Option<ValidationRules>) -> Option<ValidationView> {
    match validation {
        Some(rules) => Some(rules@),
        None => None,
    }
}

impl View for ContextExtractorConfig {
    type V = ConfigView;

    open spec fn view(&self) -> ConfigView {
        ConfigView {
            headers: self.headers@.map_values(|rule: HeaderExtractionRule| rule@),
            validation: validation_of(self.validation),
        }
    }
}

// ---- Settings that are accepted ----

/// Why settings are refused.
pub enum ConfigFault {
    NoHeaders,
    InvalidHeaderName { name: Seq<char> },
    InvalidPattern { pattern: Seq<char>, header: Seq<char>, cause: Seq<char> },
    InvalidGlobalPattern { pattern: Seq<char>, cause: Seq<char> },
}

impl ConfigFault {
    /// The message that reports the fault.
    pub open spec fn message(self) -> Seq<char> {
        match self {
            ConfigFault::NoHeaders => "context_extractor: 'headers' must not be empty"@,
            ConfigFault::InvalidHeaderName { name } => "context_extractor: invalid header name '"@
                + name + "': "@ + "invalid HTTP header name"@,
            ConfigFault::InvalidPattern { pattern, header, cause } =>
                "context_extractor: invalid regex pattern '"@ + pattern + "' for header '"@ + header
                + "': "@ + cause,
            ConfigFault::InvalidGlobalPattern { pattern, cause } =>
                "context_extractor: invalid global validation pattern '"@ + pattern + "': "@
                + cause,
        }
    }
}

/// What is wrong with one rule: its header's name comes before its pattern.
pub open spec fn rule_fault(rule: RuleView) -> Option<ConfigFault> {
    if !is_header_name(encode_utf8(rule.name)) {
        Some(ConfigFault::InvalidHeaderName { name: rule.name })
    } else {
        match rule.pattern {
            Some(pattern) => match compiled(pattern) {
                Ok(_) => None,
                Err(cause) => Some(
                    ConfigFault::InvalidPattern { pattern, header: rule.name, cause },
                ),
            },
            None => None,
        }
    }
}

/// What is wrong with the first rule with which something is wrong.
pub open spec fn rules_fault(rules: Seq<RuleView>) -> Option<ConfigFault>
    decreases rules.len(),
{
    if rules.len() == 0 {
        None
    } else {
        match rule_fault(rules[0]) {
            Some(fault) => Some(fault),
            None => rules_fault(rules.skip(1)),
        }
    }
}

/// What is wrong with the validation of all values.
pub open spec fn validation_fault(validation: Option<ValidationView>) -> Option<ConfigFault> {
    match validation {
        Some(rules) => match rules.pattern {
            Some(pattern) => match compiled(pattern) {
                Ok(_) => None,
                Err(cause) => Some(ConfigFault::InvalidGlobalPattern { pattern, cause }),
            },
            None => None,
        },
        None => None,
    }
}

/// Why the settings are refused, where they are.
pub open spec fn config_fault(config: ConfigView) -> Option<ConfigFault> {
    if config.headers.len() == 0 {
        Some(ConfigFault::NoHeaders)
    } else {
        match rules_fault(config.headers) {
            Some(fault) => Some(fault),
            None => validation_fault(config.validation),
        }
    }
}

/// The pattern, where there is one, compiles.
pub open spec fn pattern_compiles(pattern: Option<Seq<char>>) -> bool {
    pattern matches Some(p) ==> compiled(p) is Ok
}

/// At least one header, each with a legal name, and only patterns that compile.
pub open spec fn is_usable(config: ConfigView) -> bool {
    &&& config.headers.len() > 0
    &&& forall|i: int|
        0 <= i < config.headers.len() ==> is_header_name(
            encode_utf8((#[trigger] config.headers[i]).name),
        ) && pattern_compiles(config.headers[i].pattern)
    &&& config.validation matches Some(rules) ==> pattern_compiles(rules.pattern)
}

// ---- Values that are accepted ----

/// Why an extracted value is refused.
pub enum ValueFault {
    TooLong { max: nat, length: nat },
    Mismatch,
    TooLongForAll { max: nat, length: nat },
    UnusablePatternForAll { cause: Seq<char> },
    MismatchForAll,
}

impl ValueFault {
    /// The message that reports the fault for a header.
    pub open spec fn message(self, header: Seq<char>) -> Seq<char> {
        match self {
            ValueFault::TooLong { max, length } => "context_extractor: header '"@ + header
                + "' value exceeds max_length "@ + decimal(max) + " (got "@ + decimal(length)
                + ")"@,
            ValueFault::Mismatch => "context_extractor: header '"@ + header
                + "' value does not match required pattern"@,
            ValueFault::TooLongForAll { max, length } => "context_extractor: header '"@ + header
                + "' value exceeds global max_length "@ + decimal(max) + " (got "@ + decimal(length)
                + ")"@,
            ValueFault::UnusablePatternForAll { cause } =>
                "context_extractor: failed to compile global pattern: "@ + cause,
            ValueFault::MismatchForAll => "context_extractor: header '"@ + header
                + "' value does not match global validation pattern"@,
        }
    }
}

/// The number of bytes of a text.
pub open spec fn byte_len(text: Seq<char>) -> nat {
    encode_utf8(text).len()
}

/// The value is longer than a limit allows.
pub open spec fn is_over(value: Seq<char>, limit: Option<usize>) -> bool {
    limit matches Some(max) && byte_len(value) > max
}

/// What the validation of all values finds wrong with a value: its length comes before its
/// shape.
pub open spec fn fault_for_all(value: Seq<char>, validation: Option<ValidationView>) -> Option<
    ValueFault,
> {
    match validation {
        Some(rules) => if is_over(value, rules.max_length) {
            Some(
                ValueFault::TooLongForAll {
                    max: rules.max_length->0 as nat,
                    length: byte_len(value),
                },
            )
        } else {
            match rules.pattern {
                Some(pattern) => match compiled(pattern) {
                    Ok(texts) => if texts.contains(value) {
                        None
                    } else {
                        Some(ValueFault::MismatchForAll)
                    },
                    Err(cause) => Some(ValueFault::UnusablePatternForAll { cause }),
                },
                None => None,
            }
        },
        None => None,
    }
}

/// What is wrong with a value: the rule's limit, then the rule's pattern, which matches
/// `texts`, then the validation of all values.
pub open spec fn value_fault(
    value: Seq<char>,
    max_length: Option<usize>,
    texts: Option<Set<Seq<char>>>,
    validation: Option<ValidationView>,
) -> Option<ValueFault> {
    if is_over(value, max_length) {
        Some(ValueFault::TooLong { max: max_length->0 as nat, length: byte_len(value) })
    } else if texts matches Some(matched) && !matched.contains(value) {
        Some(ValueFault::Mismatch)
    } else {
        fault_for_all(value, validation)
    }
}

/// The texts that a compiled pattern matches.
pub open spec fn texts_of(regex: Option<regex::Regex>) -> Option<Set<Seq<char>>> {
    match regex {
        Some(re) => Some(matched_texts(re)),
        None => None,
    }
}

/// The texts that a pattern matches.
pub open spec fn pattern_texts(pattern: Option<Seq<char>>) -> Option<Set<Seq<char>>> {
    match pattern {
        Some(p) => match compiled(p) {
            Ok(texts) => Some(texts),
            Err(_) => None,
        },
        None => None,
    }
}

fn too_long(header: &str, middle: &str, max: usize, length: usize) -> (error: FilterError)
    ensures
        error@ == "context_extractor: header '"@ + header@ + middle@ + decimal(max as nat)
            + " (got "@ + decimal(length as nat) + ")"@,
{
    FilterError::new(
        "context_extractor: header '".to_owned().concat(header).concat(middle).concat(
            decimal_text(max as u64).as_str(),
        ).concat(" (got ").concat(decimal_text(length as u64).as_str()).concat(")"),
    )
}

/// Checks an extracted value against what its rule asks and what is asked of every value.
pub fn validate_value(
    value: &str,
    rule: &HeaderExtractionRule,
    compiled_pattern: &Option<regex::Regex>,
    global_validation: &Option<ValidationRules>,
) -> (r: Result<(), FilterError>)
    ensures
        match (
            r,
            value_fault(
                value@,
                rule.max_length,
                texts_of(*compiled_pattern),
                validation_of(*global_validation),
            ),
        ) {
            (Ok(_), None) => true,
            (Err(error), Some(fault)) => error@ == fault.message(rule.name@),
            _ => false,
        },
{
    let length = value.as_bytes().len();
    if let Some(max) = rule.max_length {
        if length > max {
            return Err(too_long(rule.name.as_str(), "' value exceeds max_length ", max, length));
        }
    }
    if let Some(pattern) = compiled_pattern {
        if !pattern.is_match(value) {
            return Err(
                FilterError::new(
                    "context_extractor: header '".to_owned().concat(rule.name.as_str()).concat(
                        "' value does not match required pattern",
                    ),
                ),
            );
        }
    }
    if let Some(global) = global_validation {
        if let Some(max) = global.max_length {
            if length > max {
                return Err(
                    too_long(rule.name.as_str(), "' value exceeds global max_length ", max, length),
                );
            }
        }
        if let Some(p) = &global.pattern {
            match regex::Regex::new(p.as_str()) {
                Ok(pattern) => {
                    if !pattern.is_match(value) {
                        return Err(
                            FilterError::new(
                                "context_extractor: header '".to_owned().concat(
                                    rule.name.as_str(),
                                ).concat("' value does not match global validation pattern"),
                            ),
                        );
                    }
                },
                Err(e) => {
                    return Err(
                        FilterError::new(
                            "context_extractor: failed to compile global pattern: ".to_owned().concat(
                                regex_error_message(&e).as_str(),
                            ),
                        ),
                    );
                },
            }
        }
    }
    Ok(())
}

// ---- The filter ----

/// Where the value for a rule comes from.
pub enum Source {
    /// This text is the value.
    Value(Seq<char>),
    /// There is none, and the rule asks for one.
    Missing,
    /// There is none, and the rule can do without.
    Absent,
}

/// What a rule makes of the text that its header gives: that text, or else the default.
pub open spec fn taken(rule: RuleView, text: Option<Seq<char>>) -> Source {
    match (text, rule.default) {
        (Some(value), _) => Source::Value(value),
        (None, Some(value)) => Source::Value(value),
        (None, None) => if rule.required {
            Source::Missing
        } else {
            Source::Absent
        },
    }
}

/// Where the value for a rule comes from in a request with these headers.
pub open spec fn source(rule: RuleView, headers: Map<Seq<u8>, Seq<Seq<u8>>>) -> Source {
    taken(rule, header_text(headers, rule.name))
}

/// The message for a required header that is missing.
pub open spec fn missing_message(header: Seq<char>) -> Seq<char> {
    "context_extractor: required header '"@ + header + "' is missing"@
}

/// The value that a rule takes where its header gives `text`: none where the header is absent
/// and the rule can do without it.
pub fn take_value(rule: &HeaderExtractionRule, text: Option<String>) -> (r: Result<
    Option<String>,
    FilterError,
>)
    ensures
        match (r, taken(rule@, text_of(text))) {
            (Ok(Some(value)), Source::Value(expected)) => value@ == expected,
            (Ok(None), Source::Absent) => true,
            (Err(error), Source::Missing) => error@ == missing_message(rule.name@),
            _ => false,
        },
{
    match text {
        Some(value) => Ok(Some(value)),
        None => {
            if let Some(default) = &rule.default {
                Ok(Some(default.clone()))
            } else if rule.required {
                Err(
                    FilterError::new(
                        "context_extractor: required header '".to_owned().concat(
                            rule.name.as_str(),
                        ).concat("' is missing"),
                    ),
                )
            } else {
                Ok(None)
            }
        },
    }
}

/// What is wrong with the value that a rule extracts.
pub open spec fn extracted_fault(
    value: Seq<char>,
    rule: RuleView,
    validation: Option<ValidationView>,
) -> Option<ValueFault> {
    value_fault(value, rule.max_length, pattern_texts(rule.pattern), validation)
}

/// The message with which a rule fails on the given headers, where it does.
pub open spec fn failure(
    rule: RuleView,
    validation: Option<ValidationView>,
    headers: Map<Seq<u8>, Seq<Seq<u8>>>,
) -> Option<Seq<char>> {
    match source(rule, headers) {
        Source::Value(value) => match extracted_fault(value, rule, validation) {
            Some(fault) => Some(fault.message(rule.name)),
            None => None,
        },
        Source::Missing => Some(missing_message(rule.name)),
        Source::Absent => None,
    }
}

/// The metadata after a rule that did not fail.
pub open spec fn stored(
    rule: RuleView,
    headers: Map<Seq<u8>, Seq<Seq<u8>>>,
    metadata: Map<Seq<char>, Seq<char>>,
) -> Map<Seq<char>, Seq<char>> {
    match source(rule, headers) {
        Source::Value(value) => metadata.insert(rule.metadata_key, value),
        _ => metadata,
    }
}

/// The metadata after the rules, taken in their order up to the first one that fails, and the
/// message of that failure.
pub open spec fn extract(
    rules: Seq<RuleView>,
    validation: Option<ValidationView>,
    headers: Map<Seq<u8>, Seq<Seq<u8>>>,
    metadata: Map<Seq<char>, Seq<char>>,
) -> (Map<Seq<char>, Seq<char>>, Option<Seq<char>>)
    decreases rules.len(),
{
    if rules.len() == 0 {
        (metadata, None)
    } else {
        match failure(rules[0], validation, headers) {
            Some(message) => (metadata, Some(message)),
            None => extract(
                rules.skip(1),
                validation,
                headers,
                stored(rules[0], headers, metadata),
            ),
        }
    }
}

/// A rule with its pattern compiled.
struct CompiledRule {
    rule: HeaderExtractionRule,
    pattern: Option<regex::Regex>,
}

spec fn rule_views(rules: Seq<CompiledRule>) -> Seq<RuleView> {
    rules.map_values(|compiled_rule: CompiledRule| compiled_rule.rule@)
}

spec fn patterns_match(rules: Seq<CompiledRule>) -> bool {
    forall|i: int|
        0 <= i < rules.len() ==> texts_of((#[trigger] rules[i]).pattern) == pattern_texts(
            rules[i].rule@.pattern,
        )
}

/// Extracts request headers into the metadata for the filters that follow.
///
/// Each rule names a header, the metadata key for its value, an optional default, whether the
/// header is required, and what the value has to be like.
pub struct ContextExtractorFilter {
    rules: Vec<CompiledRule>,
    global_validation: Option<ValidationRules>,
}

impl View for ContextExtractorFilter {
    type V = ConfigView;

    closed spec fn view(&self) -> ConfigView {
        ConfigView {
            headers: rule_views(self.rules@),
            validation: validation_of(self.global_validation),
        }
    }
}

impl ContextExtractorFilter {
    #[verifier::type_invariant]
    spec fn well_formed(self) -> bool {
        patterns_match(self.rules@) && config_fault(self@) is None
    }

    /// The filter with these settings. All patterns are compiled here, so that settings with a
    /// pattern that does not compile are refused.
    pub fn from_config(config: ContextExtractorConfig) -> (r: Result<Self, FilterError>)
        ensures
            match (r, config_fault(config@)) {
                (Ok(filter), None) => filter@ == config@,
                (Err(error), Some(fault)) => error@ == fault.message(),
                _ => false,
            },
    {
        let ghost all = config@.headers;
        if config.headers.len() == 0 {
            return Err(
                FilterError::new("context_extractor: 'headers' must not be empty".to_owned()),
            );
        }
        let mut rules: Vec<CompiledRule> = Vec::with_capacity(config.headers.len());
        let headers = config.headers;
        assert(all.skip(0) =~= all);
        for rule in it: headers
            invariant
                it.seq() == headers@,
                all == headers@.map_values(|rule: HeaderExtractionRule| rule@),
                all.len() > 0,
                config@.headers == all,
                rules@.len() == it.index(),
                rule_views(rules@) == all.take(it.index()),
                patterns_match(rules@),
                rules_fault(all) == rules_fault(all.skip(it.index())),
        {
            let ghost rest = all.skip(it.index());
            assert(rest[0] == rule@);
            assert(rest.skip(1) =~= all.skip(it.index() + 1));
            if let Err(e) = http::HeaderName::from_bytes(rule.name.as_str().as_bytes()) {
                return Err(
                    FilterError::new(
                        "context_extractor: invalid header name '".to_owned().concat(
                            rule.name.as_str(),
                        ).concat("': ").concat(invalid_name_message(&e).as_str()),
                    ),
                );
            }
            let pattern = match &rule.pattern {
                Some(p) => match regex::Regex::new(p.as_str()) {
                    Ok(regex) => Some(regex),
                    Err(e) => {
                        return Err(
                            FilterError::new(
                                "context_extractor: invalid regex pattern '".to_owned().concat(
                                    p.as_str(),
                                ).concat("' for header '").concat(rule.name.as_str()).concat(
                                    "': ",
                                ).concat(regex_error_message(&e).as_str()),
                            ),
                        );
                    },
                },
                None => None,
            };
            rules.push(CompiledRule { rule, pattern });
            assert(rule_views(rules@) =~= all.take(it.index() + 1));
        }
        assert(all.take(all.len() as int) =~= all);
        let global_validation = config.validation;
        if let Some(validation) = &global_validation {
            if let Some(p) = &validation.pattern {
                if let Err(e) = regex::Regex::new(p.as_str()) {
                    return Err(
                        FilterError::new(
                            "context_extractor: invalid global validation pattern '".to_owned().concat(
                                p.as_str(),
                            ).concat("': ").concat(regex_error_message(&e).as_str()),
                        ),
                    );
                }
            }
        }
        Ok(ContextExtractorFilter { rules, global_validation })
    }

    /// The filter's name.
    pub fn name(&self) -> (name: &'static str)
        ensures
            name@ == "context_extractor"@,
    {
        "context_extractor"
    }

    /// Request bodies are left alone.
    pub fn request_body_access(&self) -> (access: BodyAccess)
        ensures
            access == BodyAccess::NoAccess,
    {
        BodyAccess::NoAccess
    }

    /// Request bodies are not collected.
    pub fn request_body_mode(&self) -> (mode: BodyMode)
        ensures
            mode == BodyMode::Stream,
    {
        BodyMode::Stream
    }

    /// Extracts the headers of a request into its metadata, rule by rule. The first rule that
    /// fails ends the extraction with its error; what earlier rules have stored stays.
    pub fn on_request(&self, ctx: &mut HttpFilterContext) -> (r: Result<FilterAction, FilterError>)
        ensures
            final(ctx).same_but_metadata(*old(ctx)),
            config_fault(self@) is None,
            ({
                let outcome = extract(
                    self@.headers,
                    self@.validation,
                    headers_of(old(ctx).request_headers),
                    old(ctx).filter_metadata@,
                );
                &&& final(ctx).filter_metadata@ == outcome.0
                &&& match (r, outcome.1) {
                    (Ok(action), None) => action is Continue,
                    (Err(error), Some(message)) => error@ == message,
                    _ => false,
                }
            }),
    {
        proof {
            use_type_invariant(self);
        }
        let ghost all = self@.headers;
        let ghost validation = self@.validation;
        let ghost headers = headers_of(ctx.request_headers);
        let ghost metadata = ctx.filter_metadata@;
        let mut i: usize = 0;
        assert(all.skip(0) =~= all);
        while i < self.rules.len()
            invariant
                i <= self.rules.len(),
                all == rule_views(self.rules@),
                all == self@.headers,
                validation == self@.validation,
                validation == validation_of(self.global_validation),
                patterns_match(self.rules@),
                config_fault(self@) is None,
                headers == headers_of(ctx.request_headers),
                headers == headers_of(old(ctx).request_headers),
                metadata == old(ctx).filter_metadata@,
                ctx.same_but_metadata(*old(ctx)),
                extract(all, validation, headers, metadata) == extract(
                    all.skip(i as int),
                    validation,
                    headers,
                    ctx.filter_metadata@,
                ),
            decreases self.rules.len() - i,
        {
            let ghost rest = all.skip(i as int);
            let compiled_rule = &self.rules[i];
            let rule = &compiled_rule.rule;
            assert(rest[0] == rule@);
            assert(rest.skip(1) =~= all.skip(i + 1));
            i += 1;
            let value = match take_value(rule, read_header(&ctx.request_headers, &rule.name)) {
                Ok(Some(value)) => value,
                Ok(None) => continue,
                Err(error) => {
                    return Err(error);
                },
            };
            if let Err(error) = validate_value(
                value.as_str(),
                rule,
                &compiled_rule.pattern,
                &self.global_validation,
            ) {
                return Err(error);
            }
            ctx.filter_metadata.insert(rule.metadata_key.clone(), value);
        }
        Ok(FilterAction::Continue)
    }
}

// ---- What holds of settings, values and extraction ----

/// Settings are accepted exactly where they name at least one header, every header name is
/// legal and every pattern compiles.
pub proof fn settings_are_accepted_iff_usable(config: ConfigView)
    ensures
        config_fault(config) is None <==> is_usable(config),
{
    no_rule_fault_iff_all_usable(config.headers);
}

/// No rule is refused exactly where every header name is legal and every pattern compiles.
pub proof fn no_rule_fault_iff_all_usable(rules: Seq<RuleView>)
    ensures
        rules_fault(rules) is None <==> forall|i: int|
            0 <= i < rules.len() ==> is_header_name(encode_utf8((#[trigger] rules[i]).name))
                && pattern_compiles(rules[i].pattern),
    decreases rules.len(),
{
    if rules.len() > 0 {
        let rest = rules.skip(1);
        no_rule_fault_iff_all_usable(rest);
        assert forall|i: int| 0 <= i < rest.len() implies #[trigger] rest[i] == rules[i + 1] by {}
        if rules_fault(rules) is None {
            assert forall|i: int| 0 <= i < rules.len() implies is_header_name(
                encode_utf8((#[trigger] rules[i]).name),
            ) && pattern_compiles(rules[i].pattern) by {
                if i > 0 {
                    assert(rest[i - 1] == rules[i]);
                }
            }
        }
    }
}

/// A value is accepted exactly where it keeps both length limits and both patterns match it.
pub proof fn value_is_accepted_iff_all_constraints_hold(
    value: Seq<char>,
    rule: RuleView,
    validation: Option<ValidationView>,
)
    requires
        pattern_compiles(rule.pattern),
        validation matches Some(rules) ==> pattern_compiles(rules.pattern),
    ensures
        extracted_fault(value, rule, validation) is None <==> {
            &&& rule.max_length matches Some(max) ==> byte_len(value) <= max
            &&& rule.pattern matches Some(pattern) ==> compiled(pattern)->Ok_0.contains(value)
            &&& validation matches Some(rules) ==> {
                &&& rules.max_length matches Some(max) ==> byte_len(value) <= max
                &&& rules.pattern matches Some(pattern) ==> compiled(pattern)->Ok_0.contains(value)
            }
        },
{
}

/// Under settings that were accepted, no value is ever refused because the pattern for all
/// values does not compile.
pub proof fn accepted_settings_never_fail_to_compile(
    config: ConfigView,
    i: int,
    value: Seq<char>,
)
    requires
        config_fault(config) is None,
        0 <= i < config.headers.len(),
    ensures
        !(extracted_fault(value, config.headers[i], config.validation) matches Some(
            ValueFault::UnusablePatternForAll { .. },
        )),
{
}

/// Extraction succeeds exactly where no rule fails on the headers.
pub proof fn extraction_succeeds_iff_no_rule_fails(
    rules: Seq<RuleView>,
    validation: Option<ValidationView>,
    headers: Map<Seq<u8>, Seq<Seq<u8>>>,
    metadata: Map<Seq<char>, Seq<char>>,
)
    ensures
        extract(rules, validation, headers, metadata).1 is None <==> forall|i: int|
            0 <= i < rules.len() ==> failure(#[trigger] rules[i], validation, headers) is None,
    decreases rules.len(),
{
    if rules.len() > 0 {
        let rest = rules.skip(1);
        extraction_succeeds_iff_no_rule_fails(
            rest,
            validation,
            headers,
            stored(rules[0], headers, metadata),
        );
        assert forall|i: int| 0 <= i < rest.len() implies #[trigger] rest[i] == rules[i + 1] by {}
        if extract(rules, validation, headers, metadata).1 is None {
            assert forall|i: int| 0 <= i < rules.len() implies failure(
                #[trigger] rules[i],
                validation,
                headers,
            ) is None by {
                if i > 0 {
                    assert(rest[i - 1] == rules[i]);
                }
            }
        }
    }
}

/// Where rule `i` is the first to fail, extraction ends with its message, and the metadata is
/// what the rules before it have made of it.
pub proof fn first_failure_ends_extraction(
    rules: Seq<RuleView>,
    validation: Option<ValidationView>,
    headers: Map<Seq<u8>, Seq<Seq<u8>>>,
    metadata: Map<Seq<char>, Seq<char>>,
    i: int,
)
    requires
        0 <= i < rules.len(),
        failure(rules[i], validation, headers) is Some,
        forall|j: int| 0 <= j < i ==> failure(#[trigger] rules[j], validation, headers) is None,
    ensures
        extract(rules, validation, headers, metadata).1 == failure(rules[i], validation, headers),
        extract(rules, validation, headers, metadata).0 == extract(
            rules.take(i),
            validation,
            headers,
            metadata,
        ).0,
    decreases rules.len(),
{
    if i > 0 {
        let rest = rules.skip(1);
        assert(rest[i - 1] == rules[i]);
        assert forall|j: int| 0 <= j < i - 1 implies failure(
            #[trigger] rest[j],
            validation,
            headers,
        ) is None by {
            assert(rest[j] == rules[j + 1]);
        }
        first_failure_ends_extraction(
            rest,
            validation,
            headers,
            stored(rules[0], headers, metadata),
            i - 1,
        );
        assert(rules.take(i)[0] == rules[0]);
        assert(rules.take(i).skip(1) =~= rest.take(i - 1));
    }
}

/// Extraction leaves alone what stands under keys that no rule names.
pub proof fn extraction_keeps_other_keys(
    rules: Seq<RuleView>,
    validation: Option<ValidationView>,
    headers: Map<Seq<u8>, Seq<Seq<u8>>>,
    metadata: Map<Seq<char>, Seq<char>>,
    key: Seq<char>,
)
    requires
        forall|i: int| 0 <= i < rules.len() ==> (#[trigger] rules[i]).metadata_key != key,
    ensures
        extract(rules, validation, headers, metadata).0.contains_key(key)
            == metadata.contains_key(key),
        metadata.contains_key(key) ==> extract(rules, validation, headers, metadata).0[key]
            == metadata[key],
    decreases rules.len(),
{
    if rules.len() > 0 {
        let rest = rules.skip(1);
        assert(rules[0].metadata_key != key);
        assert forall|i: int| 0 <= i < rest.len() implies (#[trigger] rest[i]).metadata_key
            != key by {
            assert(rest[i] == rules[i + 1]);
        }
        extraction_keeps_other_keys(
            rest,
            validation,
            headers,
            stored(rules[0], headers, metadata),
            key,
        );
    }
}

/// After extraction has succeeded, the value of a rule stands under the rule's key, unless a
/// later rule has stored its own value there.
pub proof fn extraction_stores_the_last_value(
    rules: Seq<RuleView>,
    validation: Option<ValidationView>,
    headers: Map<Seq<u8>, Seq<Seq<u8>>>,
    metadata: Map<Seq<char>, Seq<char>>,
    i: int,
)
    requires
        extract(rules, validation, headers, metadata).1 is None,
        0 <= i < rules.len(),
        source(rules[i], headers) is Value,
        forall|j: int|
            i < j < rules.len() && source(#[trigger] rules[j], headers) is Value
                ==> rules[j].metadata_key != rules[i].metadata_key,
    ensures
        extract(rules, validation, headers, metadata).0.contains_key(rules[i].metadata_key),
        extract(rules, validation, headers, metadata).0[rules[i].metadata_key] == source(
            rules[i],
            headers,
        )->Value_0,
    decreases rules.len(),
{
    let rest = rules.skip(1);
    let next = stored(rules[0], headers, metadata);
    assert forall|j: int| 0 <= j < rest.len() implies #[trigger] rest[j] == rules[j + 1] by {}
    if i == 0 {
        assert forall|j: int|
            0 <= j < rest.len() && source(#[trigger] rest[j], headers) is Value implies rest[j].metadata_key
            != rules[0].metadata_key by {
            assert(rest[j] == rules[j + 1]);
        }
        unmatched_key_survives(rest, validation, headers, next, rules[0].metadata_key);
    } else {
        assert(rest[i - 1] == rules[i]);
        assert forall|j: int|
            i - 1 < j < rest.len() && source(#[trigger] rest[j], headers) is Value implies rest[j].metadata_key
            != rest[i - 1].metadata_key by {
            assert(rest[j] == rules[j + 1]);
        }
        extraction_stores_the_last_value(rest, validation, headers, next, i - 1);
    }
}

proof fn unmatched_key_survives(
    rules: Seq<RuleView>,
    validation: Option<ValidationView>,
    headers: Map<Seq<u8>, Seq<Seq<u8>>>,
    metadata: Map<Seq<char>, Seq<char>>,
    key: Seq<char>,
)
    requires
        metadata.contains_key(key),
        forall|j: int|
            0 <= j < rules.len() && source(#[trigger] rules[j], headers) is Value
                ==> rules[j].metadata_key != key,
    ensures
        extract(rules, validation, headers, metadata).0.contains_key(key),
        extract(rules, validation, headers, metadata).0[key] == metadata[key],
    decreases rules.len(),
{
    if rules.len() > 0 {
        let rest = rules.skip(1);
        assert forall|j: int|
            0 <= j < rest.len() && source(#[trigger] rest[j], headers) is Value implies rest[j].metadata_key
            != key by {
            assert(rest[j] == rules[j + 1]);
        }
        assert(source(rules[0], headers) is Value ==> rules[0].metadata_key != key);
        unmatched_key_survives(rest, validation, headers, stored(rules[0], headers, metadata), key);
    }
}

/// Whatever extraction changes in the metadata is the value of a rule for that key, from the
/// request's header or the rule's default, and it has passed every check.
pub proof fn extraction_stores_only_checked_values(
    rules: Seq<RuleView>,
    validation: Option<ValidationView>,
    headers: Map<Seq<u8>, Seq<Seq<u8>>>,
    metadata: Map<Seq<char>, Seq<char>>,
    key: Seq<char>,
)
    requires
        extract(rules, validation, headers, metadata).0.contains_key(key),
        metadata.contains_key(key) ==> metadata[key] != extract(
            rules,
            validation,
            headers,
            metadata,
        ).0[key],
    ensures
        exists|i: int|
            0 <= i < rules.len() && (#[trigger] rules[i]).metadata_key == key && source(
                rules[i],
                headers,
            ) == Source::Value(extract(rules, validation, headers, metadata).0[key])
                && failure(rules[i], validation, headers) is None,
    decreases rules.len(),
{
    if rules.len() > 0 && failure(rules[0], validation, headers) is None {
        let rest = rules.skip(1);
        let next = stored(rules[0], headers, metadata);
        let result = extract(rules, validation, headers, metadata).0;
        if next.contains_key(key) && next[key] == result[key] {
            assert(rules[0].metadata_key == key);
        } else {
            extraction_stores_only_checked_values(rest, validation, headers, next, key);
            let i = choose|i: int|
                0 <= i < rest.len() && (#[trigger] rest[i]).metadata_key == key && source(
                    rest[i],
                    headers,
                ) == Source::Value(extract(rest, validation, headers, next).0[key]) && failure(
                    rest[i],
                    validation,
                    headers,
                ) is None;
            assert(rules[i + 1] == rest[i]);
        }
    }
}

/// A required header that a request lacks, and that has no default, makes extraction fail.
pub proof fn missing_required_header_fails(
    rules: Seq<RuleView>,
    validation: Option<ValidationView>,
    headers: Map<Seq<u8>, Seq<Seq<u8>>>,
    metadata: Map<Seq<char>, Seq<char>>,
    i: int,
)
    requires
        0 <= i < rules.len(),
        rules[i].required,
        rules[i].default is None,
        header_text(headers, rules[i].name) is None,
    ensures
        extract(rules, validation, headers, metadata).1 is Some,
{
    extraction_succeeds_iff_no_rule_fails(rules, validation, headers, metadata);
    assert(failure(rules[i], validation, headers) is Some);
}

/// After extraction has succeeded, a value stands under the key of every rule that is required
/// or has a default.
pub proof fn extraction_fills_required_keys(
    rules: Seq<RuleView>,
    validation: Option<ValidationView>,
    headers: Map<Seq<u8>, Seq<Seq<u8>>>,
    metadata: Map<Seq<char>, Seq<char>>,
    i: int,
)
    requires
        extract(rules, validation, headers, metadata).1 is None,
        0 <= i < rules.len(),
        rules[i].required || rules[i].default is Some,
    ensures
        extract(rules, validation, headers, metadata).0.contains_key(rules[i].metadata_key),
    decreases rules.len(),
{
    let rest = rules.skip(1);
    let next = stored(rules[0], headers, metadata);
    if i == 0 {
        extraction_removes_no_key(rest, validation, headers, next, rules[0].metadata_key);
    } else {
        assert(rest[i - 1] == rules[i]);
        extraction_fills_required_keys(rest, validation, headers, next, i - 1);
    }
}

/// Extraction never takes a key out of the metadata.
pub proof fn extraction_removes_no_key(
    rules: Seq<RuleView>,
    validation: Option<ValidationView>,
    headers: Map<Seq<u8>, Seq<Seq<u8>>>,
    metadata: Map<Seq<char>, Seq<char>>,
    key: Seq<char>,
)
    requires
        metadata.contains_key(key),
    ensures
        extract(rules, validation, headers, metadata).0.contains_key(key),
    decreases rules.len(),
{
    if rules.len() > 0 {
        extraction_removes_no_key(
            rules.skip(1),
            validation,
            headers,
            stored(rules[0], headers, metadata),
            key,
        );
    }
}

// ---- The same, read off the settings and the headers alone ----

/// Rules and settings say exactly what stands in their fields.
pub proof fn settings_say_what_they_hold(
    rule: HeaderExtractionRule,
    validation: ValidationRules,
    config: ContextExtractorConfig,
    i: int,
)
    ensures
        rule@.name == rule.name@,
        rule@.metadata_key == rule.metadata_key@,
        rule.default is None ==> rule@.default is None,
        rule.default matches Some(text) ==> rule@.default == Some(text@),
        rule@.required == rule.required,
        rule.pattern is None ==> rule@.pattern is None,
        rule.pattern matches Some(text) ==> rule@.pattern == Some(text@),
        rule@.max_length == rule.max_length,
        validation.pattern is None ==> validation@.pattern is None,
        validation.pattern matches Some(text) ==> validation@.pattern == Some(text@),
        validation@.max_length == validation.max_length,
        config@.headers.len() == config.headers@.len(),
        0 <= i < config.headers@.len() ==> config@.headers[i] == config.headers@[i]@,
        config.validation is None ==> config@.validation is None,
        config.validation matches Some(rules) ==> config@.validation == Some(rules@),
        validation_of(None) is None,
        validation_of(Some(validation)) == Some(validation@),
{
}

/// A compiled pattern counts by the texts it matches; without one, nothing is asked.
pub proof fn compiled_pattern_counts_by_its_texts(regex: regex::Regex)
    ensures
        texts_of(Some(regex)) == Some(matched_texts(regex)),
        texts_of(None) is None,
{
}

/// Settings are accepted exactly where there is a header, every header's name is legal, and
/// every pattern, of a rule or for all values, compiles as it stands.
pub proof fn acceptance_of_settings(config: ConfigView)
    ensures
        config_fault(config) is None <==> {
            &&& config.headers.len() > 0
            &&& forall|i: int|
                0 <= i < config.headers.len() ==> is_header_name(
                    encode_utf8((#[trigger] config.headers[i]).name),
                ) && (config.headers[i].pattern is Some ==> compiled_on(
                    config.headers[i].pattern->0,
                    usize::BITS,
                ) is Ok)
            &&& config.validation is Some && config.validation->0.pattern is Some ==> compiled_on(
                config.validation->0.pattern->0,
                usize::BITS,
            ) is Ok
        },
{
    settings_are_accepted_iff_usable(config);
    if config_fault(config) is None {
        assert forall|i: int| 0 <= i < config.headers.len() implies is_header_name(
            encode_utf8((#[trigger] config.headers[i]).name),
        ) && (config.headers[i].pattern is Some ==> compiled_on(
            config.headers[i].pattern->0,
            usize::BITS,
        ) is Ok) by {
            assert(pattern_compiles(config.headers[i].pattern));
        }
    }
    if config.headers.len() > 0 && (forall|i: int|
        0 <= i < config.headers.len() ==> is_header_name(
            encode_utf8((#[trigger] config.headers[i]).name),
        ) && (config.headers[i].pattern is Some ==> compiled_on(
            config.headers[i].pattern->0,
            usize::BITS,
        ) is Ok)) {
        assert forall|i: int| 0 <= i < config.headers.len() implies is_header_name(
            encode_utf8((#[trigger] config.headers[i]).name),
        ) && pattern_compiles(config.headers[i].pattern) by {}
    }
}

proof fn lemma_first_rule_fault(rules: Seq<RuleView>, i: int)
    requires
        0 <= i < rules.len(),
        rule_fault(rules[i]) is Some,
        forall|j: int| 0 <= j < i ==> rule_fault(#[trigger] rules[j]) is None,
    ensures
        rules_fault(rules) == rule_fault(rules[i]),
    decreases rules.len(),
{
    if i > 0 {
        let rest = rules.skip(1);
        assert(rule_fault(rules[0]) is None);
        assert(rest[i - 1] == rules[i]);
        assert forall|j: int| 0 <= j < i - 1 implies rule_fault(#[trigger] rest[j]) is None by {
            assert(rest[j] == rules[j + 1]);
        }
        lemma_first_rule_fault(rest, i - 1);
    }
}

/// Settings without a header are refused for that.
pub proof fn settings_without_headers_are_reported(config: ConfigView)
    requires
        config.headers.len() == 0,
    ensures
        config_fault(config) matches Some(fault) && fault.message()
            == "context_extractor: 'headers' must not be empty"@,
{
}

/// The first rule with an illegal name or a pattern that does not compile is reported: by its
/// name where that is illegal, and else by its pattern, its name and the cause.
pub proof fn first_unusable_rule_is_reported(config: ConfigView, i: int)
    requires
        0 <= i < config.headers.len(),
        forall|j: int|
            0 <= j < i ==> is_header_name(encode_utf8((#[trigger] config.headers[j]).name)) && (
            config.headers[j].pattern is Some ==> compiled_on(
                config.headers[j].pattern->0,
                usize::BITS,
            ) is Ok),
    ensures
        !is_header_name(encode_utf8(config.headers[i].name)) ==> {
            &&& config_fault(config) is Some
            &&& config_fault(config)->0.message() == "context_extractor: invalid header name '"@
                + config.headers[i].name + "': "@ + "invalid HTTP header name"@
        },
        is_header_name(encode_utf8(config.headers[i].name)) && config.headers[i].pattern is Some
            && compiled_on(config.headers[i].pattern->0, usize::BITS) is Err ==> {
            &&& config_fault(config) is Some
            &&& config_fault(config)->0.message() == "context_extractor: invalid regex pattern '"@
                + config.headers[i].pattern->0 + "' for header '"@ + config.headers[i].name + "': "@
                + compiled_on(config.headers[i].pattern->0, usize::BITS)->Err_0
        },
{
    assert forall|j: int| 0 <= j < i implies rule_fault(
        #[trigger] config.headers[j],
    ) is None by {}
    if rule_fault(config.headers[i]) is Some {
        lemma_first_rule_fault(config.headers, i);
    }
}

/// Where nothing is wrong with the rules, a pattern for all values that does not compile is
/// reported, with the cause.
pub proof fn unusable_pattern_for_all_is_reported(config: ConfigView, pattern: Seq<char>)
    requires
        config.headers.len() > 0,
        forall|j: int|
            0 <= j < config.headers.len() ==> is_header_name(
                encode_utf8((#[trigger] config.headers[j]).name),
            ) && (config.headers[j].pattern is Some ==> compiled_on(
                config.headers[j].pattern->0,
                usize::BITS,
            ) is Ok),
        config.validation is Some,
        config.validation->0.pattern == Some(pattern),
        compiled_on(pattern, usize::BITS) is Err,
    ensures
        config_fault(config) is Some,
        config_fault(config)->0.message()
            == "context_extractor: invalid global validation pattern '"@ + pattern + "': "@
            + compiled_on(pattern, usize::BITS)->Err_0,
{
    no_rule_fault_iff_all_usable(config.headers);
    assert forall|j: int| 0 <= j < config.headers.len() implies is_header_name(
        encode_utf8((#[trigger] config.headers[j]).name),
    ) && pattern_compiles(config.headers[j].pattern) by {}
}

/// A value with more bytes than its rule allows is refused for that, with both numbers, whatever
/// else is asked of it.
pub proof fn value_over_the_limit_is_refused(
    value: Seq<char>,
    header: Seq<char>,
    max: usize,
    texts: Option<Set<Seq<char>>>,
    validation: Option<ValidationView>,
)
    requires
        encode_utf8(value).len() > max,
    ensures
        value_fault(value, Some(max), texts, validation) is Some,
        value_fault(value, Some(max), texts, validation)->0.message(header)
            == "context_extractor: header '"@ + header + "' value exceeds max_length "@ + decimal(
            max as nat,
        ) + " (got "@ + decimal(encode_utf8(value).len()) + ")"@,
{
}

/// A value within its rule's limit that the rule's pattern does not match is refused for that.
pub proof fn value_off_the_pattern_is_refused(
    value: Seq<char>,
    header: Seq<char>,
    max: Option<usize>,
    texts: Set<Seq<char>>,
    validation: Option<ValidationView>,
)
    requires
        max is Some ==> encode_utf8(value).len() <= max->0,
        !texts.contains(value),
    ensures
        value_fault(value, max, Some(texts), validation) is Some,
        value_fault(value, max, Some(texts), validation)->0.message(header)
            == "context_extractor: header '"@ + header
            + "' value does not match required pattern"@,
{
}

/// A value that its rule accepts is accepted where nothing is asked of all values. Else it is
/// refused where it has more bytes than is allowed for all values, and then where the pattern for
/// all values does not compile or does not match it, and accepted otherwise.
pub proof fn value_is_checked_for_all(
    value: Seq<char>,
    header: Seq<char>,
    max: Option<usize>,
    texts: Option<Set<Seq<char>>>,
    rules: ValidationView,
)
    requires
        max is Some ==> encode_utf8(value).len() <= max->0,
        texts is Some ==> texts->0.contains(value),
    ensures
        value_fault(value, max, texts, None) is None,
        rules.max_length is Some && encode_utf8(value).len() > rules.max_length->0 ==> {
            &&& value_fault(value, max, texts, Some(rules)) is Some
            &&& value_fault(value, max, texts, Some(rules))->0.message(header)
                == "context_extractor: header '"@ + header + "' value exceeds global max_length "@
                + decimal(rules.max_length->0 as nat) + " (got "@ + decimal(
                encode_utf8(value).len(),
            ) + ")"@
        },
        (rules.max_length is Some ==> encode_utf8(value).len() <= rules.max_length->0) ==> {
            &&& rules.pattern is None ==> value_fault(value, max, texts, Some(rules)) is None
            &&& rules.pattern is Some && compiled_on(rules.pattern->0, usize::BITS) is Err ==> {
                &&& value_fault(value, max, texts, Some(rules)) is Some
                &&& value_fault(value, max, texts, Some(rules))->0.message(header)
                    == "context_extractor: failed to compile global pattern: "@ + compiled_on(
                    rules.pattern->0,
                    usize::BITS,
                )->Err_0
            }
            &&& rules.pattern is Some && compiled_on(rules.pattern->0, usize::BITS) is Ok ==> {
                let matched = compiled_on(rules.pattern->0, usize::BITS)->Ok_0;
                &&& value_fault(value, max, texts, Some(rules)) is None <==> matched.contains(value)
                &&& !matched.contains(value) ==> value_fault(
                    value,
                    max,
                    texts,
                    Some(rules),
                )->0.message(header) == "context_extractor: header '"@ + header
                    + "' value does not match global validation pattern"@
            }
        },
{
}

/// A rule takes the very text that its header gives, whatever its default; the default only
/// where the header gives none; and nothing where there is neither, which is a fault exactly
/// where the header is required.
pub proof fn header_comes_before_default(rule: RuleView, text: Seq<char>)
    ensures
        taken(rule, Some(text)) == Source::Value(text),
        rule.default matches Some(default) ==> taken(rule, None) == Source::Value(default),
        rule.default is None && rule.required ==> taken(rule, None) is Missing,
        rule.default is None && !rule.required ==> taken(rule, None) is Absent,
        missing_message(rule.name) == "context_extractor: required header '"@ + rule.name
            + "' is missing"@,
{
}

/// After extraction has succeeded, the very text that a rule's header gives stands under the
/// rule's key, whether or not the rule has a default or is required, unless a later rule for
/// that key has a header or a default.
pub proof fn header_text_is_stored(
    rules: Seq<RuleView>,
    validation: Option<ValidationView>,
    headers: Map<Seq<u8>, Seq<Seq<u8>>>,
    metadata: Map<Seq<char>, Seq<char>>,
    i: int,
    text: Seq<char>,
)
    requires
        extract(rules, validation, headers, metadata).1 is None,
        0 <= i < rules.len(),
        header_text(headers, rules[i].name) == Some(text),
        forall|j: int|
            i < j < rules.len() && (#[trigger] rules[j]).metadata_key == rules[i].metadata_key
                ==> header_text(headers, rules[j].name) is None && rules[j].default is None,
    ensures
        extract(rules, validation, headers, metadata).0.contains_key(rules[i].metadata_key),
        extract(rules, validation, headers, metadata).0[rules[i].metadata_key] == text,
{
    assert forall|j: int|
        i < j < rules.len() && source(#[trigger] rules[j], headers) is Value implies rules[j].metadata_key
        != rules[i].metadata_key by {}
    extraction_stores_the_last_value(rules, validation, headers, metadata, i);
}

/// After extraction has succeeded, a rule's default stands under the rule's key where its header
/// gives no text, unless a later rule for that key has a header or a default.
pub proof fn default_is_stored_without_header(
    rules: Seq<RuleView>,
    validation: Option<ValidationView>,
    headers: Map<Seq<u8>, Seq<Seq<u8>>>,
    metadata: Map<Seq<char>, Seq<char>>,
    i: int,
    default: Seq<char>,
)
    requires
        extract(rules, validation, headers, metadata).1 is None,
        0 <= i < rules.len(),
        header_text(headers, rules[i].name) is None,
        rules[i].default == Some(default),
        forall|j: int|
            i < j < rules.len() && (#[trigger] rules[j]).metadata_key == rules[i].metadata_key
                ==> header_text(headers, rules[j].name) is None && rules[j].default is None,
    ensures
        extract(rules, validation, headers, metadata).0.contains_key(rules[i].metadata_key),
        extract(rules, validation, headers, metadata).0[rules[i].metadata_key] == default,
{
    assert forall|j: int|
        i < j < rules.len() && source(#[trigger] rules[j], headers) is Value implies rules[j].metadata_key
        != rules[i].metadata_key by {}
    extraction_stores_the_last_value(rules, validation, headers, metadata, i);
}

/// Extraction, whether it succeeds or not, leaves alone what stands under a key for which no rule
/// has a header or a default.
pub proof fn key_without_a_value_is_kept(
    rules: Seq<RuleView>,
    validation: Option<ValidationView>,
    headers: Map<Seq<u8>, Seq<Seq<u8>>>,
    metadata: Map<Seq<char>, Seq<char>>,
    key: Seq<char>,
)
    requires
        forall|j: int|
            0 <= j < rules.len() && (#[trigger] rules[j]).metadata_key == key ==> header_text(
                headers,
                rules[j].name,
            ) is None && rules[j].default is None,
    ensures
        extract(rules, validation, headers, metadata).0.contains_key(key)
            == metadata.contains_key(key),
        metadata.contains_key(key) ==> extract(rules, validation, headers, metadata).0[key]
            == metadata[key],
    decreases rules.len(),
{
    if rules.len() > 0 {
        let rest = rules.skip(1);
        let next = stored(rules[0], headers, metadata);
        assert(rules[0].metadata_key == key ==> !(source(rules[0], headers) is Value));
        assert forall|j: int|
            0 <= j < rest.len() && (#[trigger] rest[j]).metadata_key == key implies header_text(
            headers,
            rest[j].name,
        ) is None && rest[j].default is None by {
            assert(rest[j] == rules[j + 1]);
        }
        key_without_a_value_is_kept(rest, validation, headers, next, key);
    }
}

/// With patterns that compile, extraction succeeds exactly where each rule finds a value, in its
/// header or else in its default, that keeps both limits and that both patterns match, or finds
/// none and is not required.
pub proof fn success_of_extraction(
    rules: Seq<RuleView>,
    validation: Option<ValidationView>,
    headers: Map<Seq<u8>, Seq<Seq<u8>>>,
    metadata: Map<Seq<char>, Seq<char>>,
)
    requires
        forall|i: int|
            0 <= i < rules.len() && (#[trigger] rules[i]).pattern is Some ==> compiled_on(
                rules[i].pattern->0,
                usize::BITS,
            ) is Ok,
        validation is Some && validation->0.pattern is Some ==> compiled_on(
            validation->0.pattern->0,
            usize::BITS,
        ) is Ok,
    ensures
        extract(rules, validation, headers, metadata).1 is None <==> forall|i: int|
            0 <= i < rules.len() ==> {
                let rule = #[trigger] rules[i];
                let text = header_text(headers, rule.name);
                let value = if text is Some {
                    text
                } else {
                    rule.default
                };
                &&& value is None ==> !rule.required
                &&& value is Some ==> {
                    let length = encode_utf8(value->0).len();
                    &&& rule.max_length is Some ==> length <= rule.max_length->0
                    &&& rule.pattern is Some ==> compiled_on(
                        rule.pattern->0,
                        usize::BITS,
                    )->Ok_0.contains(value->0)
                    &&& validation is Some && validation->0.max_length is Some ==> length
                        <= validation->0.max_length->0
                    &&& validation is Some && validation->0.pattern is Some ==> compiled_on(
                        validation->0.pattern->0,
                        usize::BITS,
                    )->Ok_0.contains(value->0)
                }
            },
{
    extraction_succeeds_iff_no_rule_fails(rules, validation, headers, metadata);
    assert forall|i: int| 0 <= i < rules.len() implies (failure(
        #[trigger] rules[i],
        validation,
        headers,
    ) is None <==> {
        let rule = rules[i];
        let text = header_text(headers, rule.name);
        let value = if text is Some {
            text
        } else {
            rule.default
        };
        &&& value is None ==> !rule.required
        &&& value is Some ==> {
            let length = encode_utf8(value->0).len();
            &&& rule.max_length is Some ==> length <= rule.max_length->0
            &&& rule.pattern is Some ==> compiled_on(rule.pattern->0, usize::BITS)->Ok_0.contains(
                value->0,
            )
            &&& validation is Some && validation->0.max_length is Some ==> length
                <= validation->0.max_length->0
            &&& validation is Some && validation->0.pattern is Some ==> compiled_on(
                validation->0.pattern->0,
                usize::BITS,
            )->Ok_0.contains(value->0)
        }
    }) by {}
}

proof fn lemma_failure_after_success(
    rules: Seq<RuleView>,
    validation: Option<ValidationView>,
    headers: Map<Seq<u8>, Seq<Seq<u8>>>,
    metadata: Map<Seq<char>, Seq<char>>,
    i: int,
)
    requires
        0 <= i < rules.len(),
        extract(rules.take(i), validation, headers, metadata).1 is None,
        failure(rules[i], validation, headers) is Some,
    ensures
        extract(rules, validation, headers, metadata).1 == failure(rules[i], validation, headers),
        extract(rules, validation, headers, metadata).0 == extract(
            rules.take(i),
            validation,
            headers,
            metadata,
        ).0,
{
    extraction_succeeds_iff_no_rule_fails(rules.take(i), validation, headers, metadata);
    assert forall|j: int| 0 <= j < i implies failure(
        #[trigger] rules[j],
        validation,
        headers,
    ) is None by {
        assert(rules.take(i)[j] == rules[j]);
    }
    first_failure_ends_extraction(rules, validation, headers, metadata, i);
}

/// Where the rules before it succeed, a rule for a required header that is absent and has no
/// default ends extraction, whatever rules follow; the metadata is what the rules before it give.
pub proof fn missing_header_ends_extraction(
    rules: Seq<RuleView>,
    validation: Option<ValidationView>,
    headers: Map<Seq<u8>, Seq<Seq<u8>>>,
    metadata: Map<Seq<char>, Seq<char>>,
    i: int,
)
    requires
        0 <= i < rules.len(),
        extract(rules.take(i), validation, headers, metadata).1 is None,
        header_text(headers, rules[i].name) is None,
        rules[i].default is None,
        rules[i].required,
    ensures
        extract(rules, validation, headers, metadata).1 == Some(
            "context_extractor: required header '"@ + rules[i].name + "' is missing"@,
        ),
        extract(rules, validation, headers, metadata).0 == extract(
            rules.take(i),
            validation,
            headers,
            metadata,
        ).0,
{
    lemma_failure_after_success(rules, validation, headers, metadata, i);
}

/// Where the rules before it succeed, a rule whose value, from its header or else its default, is
/// refused ends extraction with the message for that value, whatever rules follow; the metadata
/// is what the rules before it give.
pub proof fn refused_value_ends_extraction(
    rules: Seq<RuleView>,
    validation: Option<ValidationView>,
    headers: Map<Seq<u8>, Seq<Seq<u8>>>,
    metadata: Map<Seq<char>, Seq<char>>,
    i: int,
    value: Seq<char>,
)
    requires
        0 <= i < rules.len(),
        extract(rules.take(i), validation, headers, metadata).1 is None,
        header_text(headers, rules[i].name) == Some(value) || (header_text(
            headers,
            rules[i].name,
        ) is None && rules[i].default == Some(value)),
        rules[i].pattern is Some ==> compiled_on(rules[i].pattern->0, usize::BITS) is Ok,
        value_fault(
            value,
            rules[i].max_length,
            if rules[i].pattern is Some {
                Some(compiled_on(rules[i].pattern->0, usize::BITS)->Ok_0)
            } else {
                None
            },
            validation,
        ) is Some,
    ensures
        extract(rules, validation, headers, metadata).1 == Some(
            value_fault(
                value,
                rules[i].max_length,
                if rules[i].pattern is Some {
                    Some(compiled_on(rules[i].pattern->0, usize::BITS)->Ok_0)
                } else {
                    None
                },
                validation,
            )->0.message(rules[i].name),
        ),
        extract(rules, validation, headers, metadata).0 == extract(
            rules.take(i),
            validation,
            headers,
            metadata,
        ).0,
{
    lemma_failure_after_success(rules, validation, headers, metadata, i);
}

} // verus!
