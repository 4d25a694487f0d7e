use vstd::prelude::*;
use crate::classify::classify;
use crate::classify::contains_seq;
use crate::classify::frames_match;
use crate::classify::matches_at;
use crate::text::dec_int;
use crate::text::decimal_i32;
use crate::text::join_frames;
use crate::text::join_lines;

verus! {

/// The configuration key that forces software rendering on later launches.
pub open spec fn mitigation_key() -> Seq<char> {
    "allow-always-software-render"@
}

/// The marker the configuration store uses for a truthy option value.
pub open spec fn truthy_marker() -> Seq<char> {
    "Y"@
}

/// The mitigation notice composed when classification matches.
pub open spec fn notice_text() -> Seq<char> {
    "Always use software rendering will be set."@
}

/// The notice carried by a report: the mitigation notice when classification
/// matched, and empty otherwise.
pub open spec fn spec_notice(matched: bool) -> Seq<char> {
    if matched {
        notice_text()
    } else {
        Seq::empty()
    }
}

/// The sentence naming the signal, shared by the log entry and the alert.
pub open spec fn signal_line(sig: int) -> Seq<char> {
    "Got signal "@ + dec_int(sig) + " and exit."@
}

/// The full error-level log entry: the signal sentence followed by the
/// newline-joined frame list.
pub open spec fn spec_log_line(sig: int, frames: Seq<Seq<char>>) -> Seq<char> {
    signal_line(sig) + " stack:\n"@ + join_lines(frames)
}

/// The body of the user-facing alert: the signal sentence followed directly
/// by the mitigation notice.
pub open spec fn spec_alert_body(sig: int) -> Seq<char> {
    signal_line(sig) + notice_text()
}

/// A pending write of one option to the configuration store.
pub struct ConfigWrite {
    pub key: String,
    pub value: String,
}

/// A platform alert to present: title, severity kind, one-line summary, body
/// text and button labels.
pub struct AlertRequest {
    pub title: String,
    pub kind: String,
    pub summary: String,
    pub body: String,
    pub buttons: Vec<String>,
}

/// Everything the diagnostic routine decides from the signal number and the
/// captured frame names: the classification outcome, the mitigation notice,
/// the log entry, the conditional configuration write and the conditional
/// user alert.
pub struct Report {
    pub matched: bool,
    pub notice: String,
    pub log_line: String,
    pub config_write: Option<ConfigWrite>,
    pub alert: Option<AlertRequest>,
}

/// What a well-formed report for a signal and a frame list holds: the
/// classification outcome is the frame-list heuristic; the notice is
/// non-trivial exactly on a match; the log entry is the signal sentence and
/// the joined frames; the configuration write and the alert exist exactly on
/// a match, with the fixed key, marker and alert fields.
pub open spec fn report_for(sig: int, frames: Seq<Seq<char>>, r: Report) -> bool {
    &&& r.matched == frames_match(frames)
    &&& r.notice@ == spec_notice(r.matched)
    &&& r.log_line@ == spec_log_line(sig, frames)
    &&& (r.config_write is Some <==> r.matched)
    &&& (r.config_write matches Some(w) ==> w.key@ == mitigation_key() && w.value@
        == truthy_marker())
    &&& (r.alert is Some <==> r.matched)
    &&& (r.alert matches Some(a) ==> a.title@ == "RustDesk"@ && a.kind@ == "critical"@
        && a.summary@ == "Crashed"@ && a.body@ == spec_alert_body(sig) && a.buttons.deep_view()
        == seq!["Ok"@])
}

/// Builds the diagnostic report for a signal number and a captured frame
/// list: classifies the frames, composes the notice and the log entry, and
/// decides the configuration write and the alert.
pub fn breakdown_report(sig: i32, frames: &Vec<String>) -> (r: Report)
    ensures
        report_for(sig as int, frames.deep_view(), r),
{
    let matched = classify(frames);
    let mut sig_line = String::new();
    sig_line.append("Got signal ");
    let dec = decimal_i32(sig);
    sig_line.append(dec.as_str());
    sig_line.append(" and exit.");
    proof {
        assert(sig_line@ =~= signal_line(sig as int));
    }
    let mut log_line = sig_line.clone();
    log_line.append(" stack:\n");
    let joined = join_frames(frames);
    log_line.append(joined.as_str());
    proof {
        assert(log_line@ =~= spec_log_line(sig as int, frames.deep_view()));
    }
    if matched {
        let notice = String::from_str("Always use software rendering will be set.");
        let mut body = sig_line;
        body.append("Always use software rendering will be set.");
        proof {
            assert(body@ =~= spec_alert_body(sig as int));
        }
        let mut buttons: Vec<String> = Vec::new();
        buttons.push(String::from_str("Ok"));
        proof {
            assert(buttons.deep_view() =~= seq!["Ok"@]);
        }
        Report {
            matched,
            notice,
            log_line,
            config_write: Some(
                ConfigWrite {
                    key: String::from_str("allow-always-software-render"),
                    value: String::from_str("Y"),
                },
            ),
            alert: Some(
                AlertRequest {
                    title: String::from_str("RustDesk"),
                    kind: String::from_str("critical"),
                    summary: String::from_str("Crashed"),
                    body,
                    buttons,
                },
            ),
        }
    } else {
        Report { matched, notice: String::new(), log_line, config_write: None, alert: None }
    }
}

/// For every report of a frame list: the configuration store is handed the
/// mitigation write exactly when some frame carries a known-bad pattern, and
/// any write it is handed sets the fixed key to the truthy marker.
pub proof fn lemma_mitigation_write_iff_matched(sig: int, frames: Seq<Seq<char>>, r: Report)
    requires
        report_for(sig, frames, r),
    ensures
        frames_match(frames) <==> r.config_write is Some,
        (r.config_write matches Some(w) ==> w.key@ == mitigation_key() && w.value@
            == truthy_marker()),
{
}

/// For every report of a frame list: an alert is decided exactly when
/// classification matched, so notification is attempted if and only if some
/// frame carried a known-bad pattern.
pub proof fn lemma_alert_iff_matched(sig: int, frames: Seq<Seq<char>>, r: Report)
    requires
        report_for(sig, frames, r),
    ensures
        frames_match(frames) <==> r.alert is Some,
{
}

/// The composed notice is non-empty exactly when classification matched, so
/// the alert body says more than the signal sentence exactly on a match.
pub proof fn lemma_notice_nonempty_iff_matched(matched: bool)
    ensures
        spec_notice(matched).len() > 0 <==> matched,
{
    reveal_strlit("Always use software rendering will be set.");
}

/// Classification is a function of the frame list alone: two classification
/// outcomes for the same frame list agree, and so do their notices.
pub proof fn lemma_classification_deterministic(frames: Seq<Seq<char>>, m1: bool, m2: bool)
    requires
        m1 == frames_match(frames),
        m2 == frames_match(frames),
    ensures
        m1 == m2,
        spec_notice(m1) == spec_notice(m2),
{
}

/// The log entry always carries the literal decimal signal number and the
/// newline-joined frame list, whatever the classification outcome.
pub proof fn lemma_log_line_contains(sig: int, frames: Seq<Seq<char>>)
    ensures
        contains_seq(spec_log_line(sig, frames), dec_int(sig)),
        contains_seq(spec_log_line(sig, frames), join_lines(frames)),
{
    let line = spec_log_line(sig, frames);
    let p = "Got signal "@.len() as int;
    assert(line.subrange(p, p + dec_int(sig).len()) =~= dec_int(sig));
    assert(matches_at(line, dec_int(sig), p));
    let q = line.len() - join_lines(frames).len();
    assert(line.subrange(q, q + join_lines(frames).len()) =~= join_lines(frames));
    assert(matches_at(line, join_lines(frames), q));
}

} // verus!
