//! The version status report: its data model, its exact line-level
//! specification, and the verified renderer.
//!
//! A report line is `<label padded to 21 columns>: <value>`. The first three
//! lines are always present; the "Latest stable version" line appears only
//! when a stable version is known (non-empty), and the "Latest beta version"
//! line appears only when the user has opted into beta visibility.

use vstd::prelude::*;
use crate::error::ReportError;

verus! {

/// Width of the label column, in characters.
pub const LABEL_WIDTH: usize = 21;

/// Snapshot of the daemon's version metadata.
#[derive(Debug, Clone, PartialEq, Eq)]
pub struct VersionInfo {
    /// Whether the running version is still within the supported set.
    pub supported: bool,
    /// A specific version the user should upgrade to, if any.
    pub suggested_upgrade: Option<String>,
    /// Latest known stable version; empty means unknown or unavailable.
    pub latest_stable: String,
    /// Latest known beta version; only shown when the user opts in.
    pub latest_beta: String,
}

/// Mathematical view of a [`VersionInfo`] snapshot.
pub struct VersionInfoView {
    pub supported: bool,
    pub suggested_upgrade: Option<Seq<char>>,
    pub latest_stable: Seq<char>,
    pub latest_beta: Seq<char>,
}

impl View for VersionInfo {
    type V = VersionInfoView;

    open spec fn view(&self) -> VersionInfoView {
        VersionInfoView {
            supported: self.supported,
            suggested_upgrade: match self.suggested_upgrade {
                Option::Some(s) => Option::Some(s@),
                Option::None => Option::None,
            },
            latest_stable: self.latest_stable@,
            latest_beta: self.latest_beta@,
        }
    }
}

/// Snapshot of the user's display settings.
#[derive(Debug, Clone, PartialEq, Eq)]
pub struct Settings {
    /// Whether beta-version information is displayed.
    pub show_beta_releases: bool,
}

/// `n` space characters.
pub open spec fn spaces(n: nat) -> Seq<char>
    decreases n,
{
    if n == 0 {
        Seq::<char>::empty()
    } else {
        spaces((n - 1) as nat).push(' ')
    }
}

/// A label padded with spaces to the label column width; a label already at
/// or over the width is kept as it is.
pub open spec fn padded_label(label: Seq<char>) -> Seq<char> {
    if label.len() >= LABEL_WIDTH {
        label
    } else {
        label + spaces((LABEL_WIDTH - label.len()) as nat)
    }
}

/// One report line: the padded label, a colon and a space, then the value.
pub open spec fn spec_line(label: Seq<char>, value: Seq<char>) -> Seq<char> {
    padded_label(label) + ": "@ + value
}

/// The canonical textual form of a boolean.
pub open spec fn bool_text_spec(b: bool) -> Seq<char> {
    if b {
        "true"@
    } else {
        "false"@
    }
}

/// The rendered value of the "Suggested upgrade" field: the suggested
/// version when one is present, the literal text `none` otherwise.
pub open spec fn suggested_text(s: Option<Seq<char>>) -> Seq<char> {
    match s {
        Option::Some(v) => v,
        Option::None => "none"@,
    }
}

/// The full report, as the exact sequence of lines it consists of, in their
/// fixed order: current version, support status, suggested upgrade, then the
/// two independently gated lines (stable gated by data presence, beta by
/// user preference).
pub open spec fn report_lines(current: Seq<char>, info: VersionInfoView, show_beta: bool) -> Seq<
    Seq<char>,
> {
    let base = seq![
        spec_line("Current version"@, current),
        spec_line("Is supported"@, bool_text_spec(info.supported)),
        spec_line("Suggested upgrade"@, suggested_text(info.suggested_upgrade)),
    ];
    let with_stable = if info.latest_stable.len() > 0 {
        base.push(spec_line("Latest stable version"@, info.latest_stable))
    } else {
        base
    };
    if show_beta {
        with_stable.push(spec_line("Latest beta version"@, info.latest_beta))
    } else {
        with_stable
    }
}

/// Pads `label` with spaces up to the label column width.
fn pad_label(label: &str) -> (r: String)
    requires
        label@.len() <= LABEL_WIDTH,
    ensures
        r@ == padded_label(label@),
{
    let mut r = label.to_owned();
    let start = label.unicode_len();
    let mut n = start;
    proof {
        assert(r@ + spaces(0) =~= r@);
    }
    while n < LABEL_WIDTH
        invariant
            start == label@.len(),
            start <= n <= LABEL_WIDTH,
            r@ == label@ + spaces((n - start) as nat),
        decreases LABEL_WIDTH - n,
    {
        r.append(" ");
        n = n + 1;
        proof {
            reveal_strlit(" ");
            assert(" "@ =~= seq![' ']);
            assert(label@ + spaces((n - 1 - start) as nat) + " "@ =~= label@ + spaces(
                (n - start) as nat,
            ));
        }
    }
    proof {
        if label@.len() == LABEL_WIDTH {
            assert(r@ =~= label@);
        }
    }
    r
}

/// Renders one report line from a label and a value.
fn format_line(label: &str, value: &str) -> (r: String)
    requires
        label@.len() <= LABEL_WIDTH,
    ensures
        r@ == spec_line(label@, value@),
{
    let mut r = pad_label(label);
    r.append(": ");
    r.append(value);
    r
}

/// The canonical textual form of a boolean.
fn bool_text(b: bool) -> (r: &'static str)
    ensures
        r@ == bool_text_spec(b),
{
    if b {
        "true"
    } else {
        "false"
    }
}

/// Renders the report for one snapshot: exactly the lines of
/// [`report_lines`], in their fixed order.
pub fn render_report(current: &str, info: &VersionInfo, settings: &Settings) -> (lines: Vec<
    String,
>)
    ensures
        lines@.map_values(|s: String| s@) == report_lines(
            current@,
            info@,
            settings.show_beta_releases,
        ),
{
    proof {
        reveal_strlit("Current version");
        reveal_strlit("Is supported");
        reveal_strlit("Suggested upgrade");
        reveal_strlit("Latest stable version");
        reveal_strlit("Latest beta version");
    }
    let mut lines: Vec<String> = Vec::new();
    lines.push(format_line("Current version", current));
    lines.push(format_line("Is supported", bool_text(info.supported)));
    match &info.suggested_upgrade {
        Option::Some(s) => lines.push(format_line("Suggested upgrade", s.as_str())),
        Option::None => lines.push(format_line("Suggested upgrade", "none")),
    }
    if !info.latest_stable.as_str().is_empty() {
        lines.push(format_line("Latest stable version", info.latest_stable.as_str()));
    }
    if settings.show_beta_releases {
        lines.push(format_line("Latest beta version", info.latest_beta.as_str()));
    }
    proof {
        assert(lines@.map_values(|s: String| s@) =~= report_lines(
            current@,
            info@,
            settings.show_beta_releases,
        ));
    }
    lines
}

/// Composes the outcomes of the three fetches into a report, all or
/// nothing: the first failing fetch — in the fixed order current version,
/// version info, settings — aborts the report with the error variant that
/// identifies it, and only when all three succeeded are any lines produced.
pub fn produce_report(
    current: Result<String, String>,
    info: Result<VersionInfo, String>,
    settings: Result<Settings, String>,
) -> (r: Result<Vec<String>, ReportError>)
    ensures
        r is Ok <==> (current is Ok && info is Ok && settings is Ok),
        (match current {
            Result::Err(m) => r == Result::<Vec<String>, ReportError>::Err(
                ReportError::CurrentVersionUnavailable(m),
            ),
            Result::Ok(_) => true,
        }),
        (match (current, info) {
            (Result::Ok(_), Result::Err(m)) => r == Result::<Vec<String>, ReportError>::Err(
                ReportError::VersionInfoUnavailable(m),
            ),
            _ => true,
        }),
        (match (current, info, settings) {
            (Result::Ok(_), Result::Ok(_), Result::Err(m)) => r == Result::<
                Vec<String>,
                ReportError,
            >::Err(ReportError::SettingsUnavailable(m)),
            _ => true,
        }),
        (match (current, info, settings) {
            (Result::Ok(c), Result::Ok(vi), Result::Ok(st)) => r matches Ok(lines)
                && lines@.map_values(|s: String| s@) == report_lines(
                c@,
                vi@,
                st.show_beta_releases,
            ),
            _ => true,
        }),
{
    let c = match current {
        Result::Ok(c) => c,
        Result::Err(m) => {
            return Result::Err(ReportError::CurrentVersionUnavailable(m));
        },
    };
    let vi = match info {
        Result::Ok(vi) => vi,
        Result::Err(m) => {
            return Result::Err(ReportError::VersionInfoUnavailable(m));
        },
    };
    let st = match settings {
        Result::Ok(st) => st,
        Result::Err(m) => {
            return Result::Err(ReportError::SettingsUnavailable(m));
        },
    };
    let lines = render_report(c.as_str(), &vi, &st);
    Result::Ok(lines)
}

proof fn lemma_spaces_len(n: nat)
    ensures
        spaces(n).len() == n,
    decreases n,
{
    if n > 0 {
        lemma_spaces_len((n - 1) as nat);
    }
}

proof fn lemma_padded_label_len(label: Seq<char>)
    requires
        label.len() <= LABEL_WIDTH,
    ensures
        padded_label(label).len() == LABEL_WIDTH,
{
    if label.len() < LABEL_WIDTH {
        lemma_spaces_len((LABEL_WIDTH - label.len()) as nat);
    }
}

/// Within the label column, a line carries its label's characters: the
/// value cannot reach into the first [`LABEL_WIDTH`] columns.
proof fn lemma_spec_line_char(label: Seq<char>, value: Seq<char>, k: int)
    requires
        label.len() <= LABEL_WIDTH,
        0 <= k < label.len(),
    ensures
        spec_line(label, value).len() >= LABEL_WIDTH + 2,
        spec_line(label, value)[k] == label[k],
{
    lemma_padded_label_len(label);
    reveal_strlit(": ");
}

/// The report consists of exactly the expected lines, in their fixed order:
/// the three unconditional lines first, then the stable line exactly when a
/// stable version is known, then the beta line exactly when beta display is
/// on — never more, never fewer.
pub proof fn lemma_report_shape(current: Seq<char>, info: VersionInfoView, show_beta: bool)
    ensures
        ({
            let lines = report_lines(current, info, show_beta);
            &&& lines.len() == 3 + (if info.latest_stable.len() > 0 {
                1int
            } else {
                0int
            }) + (if show_beta {
                1int
            } else {
                0int
            })
            &&& lines[0] == spec_line("Current version"@, current)
            &&& lines[1] == spec_line("Is supported"@, bool_text_spec(info.supported))
            &&& lines[2] == spec_line("Suggested upgrade"@, suggested_text(info.suggested_upgrade))
            &&& info.latest_stable.len() > 0 ==> lines[3] == spec_line(
                "Latest stable version"@,
                info.latest_stable,
            )
            &&& show_beta ==> lines[lines.len() - 1] == spec_line(
                "Latest beta version"@,
                info.latest_beta,
            )
        }),
{
}

/// When no stable version is known, no line of the report is a
/// "Latest stable version" line, whatever its value would be.
pub proof fn lemma_stable_line_absent_when_unknown(
    current: Seq<char>,
    info: VersionInfoView,
    show_beta: bool,
)
    requires
        info.latest_stable.len() == 0,
    ensures
        forall|i: int, v: Seq<char>|
            0 <= i < report_lines(current, info, show_beta).len() ==> report_lines(
                current,
                info,
                show_beta,
            )[i] != spec_line("Latest stable version"@, v),
{
    let lines = report_lines(current, info, show_beta);
    reveal_strlit("Current version");
    reveal_strlit("Is supported");
    reveal_strlit("Suggested upgrade");
    reveal_strlit("Latest stable version");
    reveal_strlit("Latest beta version");
    assert forall|i: int, v: Seq<char>| 0 <= i < lines.len() implies lines[i] != spec_line(
        "Latest stable version"@,
        v,
    ) by {
        lemma_spec_line_char("Latest stable version"@, v, 0);
        lemma_spec_line_char("Latest stable version"@, v, 7);
        if i == 0 {
            lemma_spec_line_char("Current version"@, current, 0);
        } else if i == 1 {
            lemma_spec_line_char("Is supported"@, bool_text_spec(info.supported), 0);
        } else if i == 2 {
            lemma_spec_line_char("Suggested upgrade"@, suggested_text(info.suggested_upgrade), 0);
        } else {
            lemma_spec_line_char("Latest beta version"@, info.latest_beta, 7);
        }
    }
}

/// When beta display is off, no line of the report is a
/// "Latest beta version" line, whatever its value would be.
pub proof fn lemma_beta_line_absent_when_hidden(
    current: Seq<char>,
    info: VersionInfoView,
    show_beta: bool,
)
    requires
        !show_beta,
    ensures
        forall|i: int, v: Seq<char>|
            0 <= i < report_lines(current, info, show_beta).len() ==> report_lines(
                current,
                info,
                show_beta,
            )[i] != spec_line("Latest beta version"@, v),
{
    let lines = report_lines(current, info, show_beta);
    reveal_strlit("Current version");
    reveal_strlit("Is supported");
    reveal_strlit("Suggested upgrade");
    reveal_strlit("Latest stable version");
    reveal_strlit("Latest beta version");
    assert forall|i: int, v: Seq<char>| 0 <= i < lines.len() implies lines[i] != spec_line(
        "Latest beta version"@,
        v,
    ) by {
        lemma_spec_line_char("Latest beta version"@, v, 0);
        lemma_spec_line_char("Latest beta version"@, v, 7);
        if i == 0 {
            lemma_spec_line_char("Current version"@, current, 0);
        } else if i == 1 {
            lemma_spec_line_char("Is supported"@, bool_text_spec(info.supported), 0);
        } else if i == 2 {
            lemma_spec_line_char("Suggested upgrade"@, suggested_text(info.suggested_upgrade), 0);
        } else {
            lemma_spec_line_char("Latest stable version"@, info.latest_stable, 7);
        }
    }
}

/// When beta display is on, the report ends with the "Latest beta version"
/// line — also when the beta version itself is the empty string.
pub proof fn lemma_beta_line_present_when_shown(
    current: Seq<char>,
    info: VersionInfoView,
    show_beta: bool,
)
    requires
        show_beta,
    ensures
        report_lines(current, info, show_beta).len() >= 4,
        report_lines(current, info, show_beta).last() == spec_line(
            "Latest beta version"@,
            info.latest_beta,
        ),
{
}

/// When no upgrade is suggested, the "Suggested upgrade" line renders the
/// literal text `none`.
pub proof fn lemma_suggested_none_renders_none(
    current: Seq<char>,
    info: VersionInfoView,
    show_beta: bool,
)
    requires
        info.suggested_upgrade is None,
    ensures
        report_lines(current, info, show_beta)[2] == spec_line("Suggested upgrade"@, "none"@),
{
}

} // verus!
