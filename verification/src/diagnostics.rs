//! Turns setup failures into operator-facing diagnostics.
//!
//! A failure is identified by the layer it came from and, for operating-system
//! errors, by the raw error code. A [`Classifier`] is an ordered table of
//! rules; the first rule that names the failure's domain and code supplies the
//! message. A failure that no rule names gets a generic message that carries
//! the failure's own text. Every diagnostic is fatal: setup failures are never
//! retried.

use vstd::prelude::*;
use vstd::string::*;

verus! {

/// The layer a failure was reported by.
#[derive(Clone, Copy, Debug, PartialEq, Eq, Structural)]
pub enum ErrorDomain {
    /// An operating-system error raised while selecting a channel.
    Tuning,
    /// An operating-system error raised while opening a device or a file.
    DeviceIo,
    /// Anything that is not an operating-system error, such as a failure of
    /// the descrambling stage.
    NonOs,
}

/// A failure as the classifier sees it.
#[derive(Clone, Debug, PartialEq, Eq)]
pub struct Failure {
    pub domain: ErrorDomain,
    /// The raw operating-system code, where there is one.
    pub code: Option<i32>,
    /// The failure's own description.
    pub text: String,
}

pub struct FailureView {
    pub domain: ErrorDomain,
    pub code: Option<i32>,
    pub text: Seq<char>,
}

impl View for Failure {
    type V = FailureView;

    open spec fn view(&self) -> FailureView {
        FailureView { domain: self.domain, code: self.code, text: self.text@ }
    }
}

/// One row of the table: failures of `domain` with `code` get `message`.
#[derive(Clone, Debug, PartialEq, Eq)]
pub struct Rule {
    pub domain: ErrorDomain,
    pub code: i32,
    pub message: String,
}

pub struct RuleView {
    pub domain: ErrorDomain,
    pub code: i32,
    pub message: Seq<char>,
}

impl View for Rule {
    type V = RuleView;

    open spec fn view(&self) -> RuleView {
        RuleView { domain: self.domain, code: self.code, message: self.message@ }
    }
}

/// What the operator is told about a failure.
#[derive(Clone, Debug, PartialEq, Eq)]
pub struct Diagnostic {
    pub message: String,
    /// Whether the message is specific guidance, as opposed to a generic
    /// report of the failure's own text.
    pub actionable: bool,
    /// Whether the run must end. Always `true` for a classified failure.
    pub fatal: bool,
}

pub struct DiagnosticView {
    pub message: Seq<char>,
    pub actionable: bool,
    pub fatal: bool,
}

impl View for Diagnostic {
    type V = DiagnosticView;

    open spec fn view(&self) -> DiagnosticView {
        DiagnosticView { message: self.message@, actionable: self.actionable, fatal: self.fatal }
    }
}

/// Message for a channel that cannot be received at the moment.
pub open spec fn channel_unavailable_text() -> Seq<char> {
    "Channel selection failed; channel may not be receivable."@
}

/// Message for a channel that the tuner rejects.
pub open spec fn channel_invalid_text() -> Seq<char> {
    "The specified channel is invalid."@
}

/// Message for a tuner that another process holds.
pub open spec fn device_busy_text() -> Seq<char> {
    "The tuner device is already in use."@
}

/// What a generic message starts with, by domain.
pub open spec fn generic_prefix(domain: ErrorDomain) -> Seq<char> {
    match domain {
        ErrorDomain::Tuning => "Unexpected Linux error: "@,
        ErrorDomain::DeviceIo => "Unexpected IO error: "@,
        ErrorDomain::NonOs => "Unexpected error: "@,
    }
}

/// Whether `rule` names a failure of `domain` with `code`. A failure without
/// a code matches no rule.
pub open spec fn rule_matches(rule: RuleView, domain: ErrorDomain, code: Option<i32>) -> bool {
    rule.domain == domain && code == Some(rule.code)
}

/// Whether `rules[i]` is the first rule that names the failure.
pub open spec fn is_first_match(
    rules: Seq<RuleView>,
    domain: ErrorDomain,
    code: Option<i32>,
    i: int,
) -> bool {
    &&& 0 <= i < rules.len()
    &&& rule_matches(rules[i], domain, code)
    &&& forall|j: int| 0 <= j < i ==> !rule_matches(#[trigger] rules[j], domain, code)
}

/// Whether any rule names the failure.
pub open spec fn has_match(rules: Seq<RuleView>, domain: ErrorDomain, code: Option<i32>) -> bool {
    exists|i: int| 0 <= i < rules.len() && rule_matches(#[trigger] rules[i], domain, code)
}

/// The diagnostic for a failure under a table: the message of the first rule
/// that names its domain and code, or else the generic prefix of its domain
/// followed by its own text.
pub open spec fn diagnosis(rules: Seq<RuleView>, failure: FailureView) -> DiagnosticView {
    if has_match(rules, failure.domain, failure.code) {
        let i = choose|i: int| is_first_match(rules, failure.domain, failure.code, i);
        DiagnosticView { message: rules[i].message, actionable: true, fatal: true }
    } else {
        DiagnosticView {
            message: generic_prefix(failure.domain) + failure.text,
            actionable: false,
            fatal: true,
        }
    }
}

/// The table for a platform whose codes for "try again", "invalid argument"
/// and "already in progress" are the three arguments.
pub open spec fn platform_rules(try_again: i32, invalid_argument: i32, already: i32) -> Seq<
    RuleView,
> {
    seq![
        RuleView {
            domain: ErrorDomain::Tuning,
            code: try_again,
            message: channel_unavailable_text(),
        },
        RuleView {
            domain: ErrorDomain::Tuning,
            code: invalid_argument,
            message: channel_invalid_text(),
        },
        RuleView { domain: ErrorDomain::DeviceIo, code: already, message: device_busy_text() },
    ]
}

/// The code that the platform uses for "resource temporarily unavailable".
///
/// Reads `nix::errno::Errno::EAGAIN`. The number differs between platforms, so
/// nothing is claimed about it.
#[verifier::external_body]
fn platform_try_again() -> (code: i32) {
    nix::errno::Errno::EAGAIN as i32
}

/// The code that the platform uses for "invalid argument".
///
/// Reads `nix::errno::Errno::EINVAL`. The number differs between platforms, so
/// nothing is claimed about it.
#[verifier::external_body]
fn platform_invalid_argument() -> (code: i32) {
    nix::errno::Errno::EINVAL as i32
}

/// The code that the platform uses for "operation already in progress".
///
/// Reads `libc::EALREADY`. The number differs between platforms, so nothing is
/// claimed about it.
#[verifier::external_body]
fn platform_already() -> (code: i32) {
    libc::EALREADY
}

impl Diagnostic {
    /// The diagnostic for a channel whose type is undefined: it is rejected
    /// before the tuner is touched.
    pub fn invalid_channel() -> (d: Diagnostic)
        ensures
            d@ == (DiagnosticView {
                message: channel_invalid_text(),
                actionable: true,
                fatal: true,
            }),
    {
        Diagnostic {
            message: String::from_str("The specified channel is invalid."),
            actionable: true,
            fatal: true,
        }
    }
}

/// An ordered table of rules. Earlier rules win.
#[derive(Clone, Debug)]
pub struct Classifier {
    pub rules: Vec<Rule>,
}

impl View for Classifier {
    type V = Seq<RuleView>;

    open spec fn view(&self) -> Seq<RuleView> {
        Seq::new(self.rules@.len(), |i: int| self.rules@[i]@)
    }
}

impl Classifier {
    /// A table without rules: every failure gets a generic message.
    pub fn new() -> (c: Classifier)
        ensures
            c@ == Seq::<RuleView>::empty(),
    {
        Classifier { rules: Vec::new() }
    }

    /// Adds a rule behind the rules that are already there.
    pub fn push(&mut self, rule: Rule)
        ensures
            final(self)@ == old(self)@.push(rule@),
    {
        self.rules.push(rule);
    }

    /// The table for a platform with the given error codes.
    pub fn with_codes(try_again: i32, invalid_argument: i32, already: i32) -> (c: Classifier)
        ensures
            c@ == platform_rules(try_again, invalid_argument, already),
    {
        let mut c = Classifier::new();
        c.push(
            Rule {
                domain: ErrorDomain::Tuning,
                code: try_again,
                message: String::from_str(
                    "Channel selection failed; channel may not be receivable.",
                ),
            },
        );
        c.push(
            Rule {
                domain: ErrorDomain::Tuning,
                code: invalid_argument,
                message: String::from_str("The specified channel is invalid."),
            },
        );
        c.push(
            Rule {
                domain: ErrorDomain::DeviceIo,
                code: already,
                message: String::from_str("The tuner device is already in use."),
            },
        );
        c
    }

    /// The table for the platform this program runs on. Its three rules are
    /// those of [`Classifier::with_codes`]; the codes are the platform's own.
    pub fn platform() -> (c: Classifier)
        ensures
            exists|try_again: i32, invalid_argument: i32, already: i32|
                c@ == platform_rules(try_again, invalid_argument, already),
    {
        let try_again = platform_try_again();
        let invalid_argument = platform_invalid_argument();
        let already = platform_already();
        Classifier::with_codes(try_again, invalid_argument, already)
    }

    /// Classifies a failure: the first rule that names its domain and code
    /// decides; without one the message is generic.
    pub fn classify(&self, failure: &Failure) -> (d: Diagnostic)
        ensures
            d@ == diagnosis(self@, failure@),
            d.fatal,
            d.actionable == has_match(self@, failure.domain, failure.code),
            forall|i: int|
                is_first_match(self@, failure.domain, failure.code, i) ==> d@.message
                    == self@[i].message,
            !d.actionable ==> d@.message == generic_prefix(failure.domain) + failure.text@,
    {
        let mut i: usize = 0;
        while i < self.rules.len()
            invariant
                i <= self.rules.len(),
                forall|j: int|
                    0 <= j < i ==> !rule_matches(
                        #[trigger] self@[j],
                        failure.domain,
                        failure.code,
                    ),
            decreases self.rules.len() - i,
        {
            let rule = &self.rules[i];
            let same_code = match failure.code {
                Some(code) => code == rule.code,
                None => false,
            };
            if rule.domain == failure.domain && same_code {
                proof {
                    assert(rule_matches(self@[i as int], failure.domain, failure.code));
                    first_match_is_unique(self@, failure.domain, failure.code, i as int);
                    assert(diagnosis(self@, failure@) == (DiagnosticView {
                        message: self@[i as int].message,
                        actionable: true,
                        fatal: true,
                    }));
                }
                return Diagnostic { message: rule.message.clone(), actionable: true, fatal: true };
            }
            i = i + 1;
        }
        let prefix = match failure.domain {
            ErrorDomain::Tuning => String::from_str("Unexpected Linux error: "),
            ErrorDomain::DeviceIo => String::from_str("Unexpected IO error: "),
            ErrorDomain::NonOs => String::from_str("Unexpected error: "),
        };
        Diagnostic { message: prefix.concat(failure.text.as_str()), actionable: false, fatal: true }
    }
}

/// A table has at most one first match, and `diagnosis` uses it.
pub proof fn first_match_is_unique(
    rules: Seq<RuleView>,
    domain: ErrorDomain,
    code: Option<i32>,
    i: int,
)
    requires
        is_first_match(rules, domain, code, i),
    ensures
        has_match(rules, domain, code),
        forall|k: int| is_first_match(rules, domain, code, k) ==> k == i,
        forall|text: Seq<char>|
            #[trigger] diagnosis(rules, FailureView { domain, code, text }) == (DiagnosticView {
                message: rules[i].message,
                actionable: true,
                fatal: true,
            }),
{
    assert forall|k: int| is_first_match(rules, domain, code, k) implies k == i by {
        if k < i {
            assert(!rule_matches(rules[k], domain, code));
        } else if i < k {
            assert(!rule_matches(rules[i], domain, code));
        }
    }
}

/// What the platform table says, rule by rule. While tuning, "try again"
/// means that the channel cannot be received, and "invalid argument" that the
/// channel is invalid. While opening a device, "already in progress" means
/// that the tuner is in use. Every other failure, with or without a code,
/// gets the generic message of its domain followed by its own text.
pub proof fn platform_table_classifies(
    try_again: i32,
    invalid_argument: i32,
    already: i32,
    failure: FailureView,
)
    ensures
        ({
            let rules = platform_rules(try_again, invalid_argument, already);
            let d = diagnosis(rules, failure);
            let named = |message: Seq<char>| DiagnosticView { message, actionable: true, fatal: true };
            if failure.domain is Tuning && failure.code == Some(try_again) {
                d == named(channel_unavailable_text())
            } else if failure.domain is Tuning && failure.code == Some(invalid_argument) {
                d == named(channel_invalid_text())
            } else if failure.domain is DeviceIo && failure.code == Some(already) {
                d == named(device_busy_text())
            } else {
                d == (DiagnosticView {
                    message: generic_prefix(failure.domain) + failure.text,
                    actionable: false,
                    fatal: true,
                })
            }
        }),
{
    let rules = platform_rules(try_again, invalid_argument, already);
    let domain = failure.domain;
    let code = failure.code;
    if domain is Tuning && code == Some(try_again) {
        assert(rule_matches(rules[0], domain, code));
        first_match_is_unique(rules, domain, code, 0);
    } else if domain is Tuning && code == Some(invalid_argument) {
        assert(rule_matches(rules[1], domain, code));
        assert(!rule_matches(rules[0], domain, code));
        first_match_is_unique(rules, domain, code, 1);
    } else if domain is DeviceIo && code == Some(already) {
        assert(rule_matches(rules[2], domain, code));
        assert(!rule_matches(rules[0], domain, code));
        assert(!rule_matches(rules[1], domain, code));
        first_match_is_unique(rules, domain, code, 2);
    } else {
        assert forall|i: int| 0 <= i < rules.len() implies !rule_matches(
            #[trigger] rules[i],
            domain,
            code,
        ) by {
            if i == 0 {
            } else if i == 1 {
            } else {
                assert(i == 2);
            }
        }
    }
}

/// Classification is a function of domain and code. Two failures with the
/// same domain and code get the same fatality and the same kind of message;
/// where a rule names them they get the same text, and otherwise their texts
/// differ only by what the failures say of themselves.
pub proof fn classification_is_pure(rules: Seq<RuleView>, a: FailureView, b: FailureView)
    requires
        a.domain == b.domain,
        a.code == b.code,
    ensures
        diagnosis(rules, a).fatal && diagnosis(rules, b).fatal,
        diagnosis(rules, a).actionable == diagnosis(rules, b).actionable,
        diagnosis(rules, a).actionable ==> diagnosis(rules, a) == diagnosis(rules, b),
        !diagnosis(rules, a).actionable ==> diagnosis(rules, a).message == generic_prefix(a.domain)
            + a.text && diagnosis(rules, b).message == generic_prefix(a.domain) + b.text,
        a.text == b.text ==> diagnosis(rules, a) == diagnosis(rules, b),
{
}

} // verus!
