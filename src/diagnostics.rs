//! The evidence collected when a service does not start: logs, unmet pod
//! conditions, how containers last stopped, abnormal events.

use vstd::prelude::*;

use crate::errors::{CommandError, EngineError, EventDetails, Tag};
use crate::pipeline::{quote, quoted};
use crate::service::opt_view;
use crate::text::{decimal, lowercase_of, strings_view, to_decimal, to_lowercase};

verus! {

/// A condition of a pod.
pub struct PodCondition {
    pub status: String,
    pub typee: String,
    pub reason: Option<String>,
    pub message: Option<String>,
}

/// How a container last terminated.
pub struct ContainerStateTerminated {
    pub exit_code: i32,
    pub message: Option<String>,
}

/// Why a container last waited.
pub struct ContainerStateWaiting {
    pub message: Option<String>,
}

pub struct ContainerLastState {
    pub terminated: Option<ContainerStateTerminated>,
    pub waiting: Option<ContainerStateWaiting>,
}

pub struct ContainerStatus {
    pub last_state: Option<ContainerLastState>,
}

/// The status of a pod: its conditions and the states of its containers.
pub struct PodStatus {
    pub conditions: Vec<PodCondition>,
    pub container_statuses: Option<Vec<ContainerStatus>>,
}

/// An event of the namespace.
pub struct KubernetesEvent {
    pub type_: String,
    pub reason: String,
    pub message: Option<String>,
    pub last_timestamp: Option<String>,
}

pub open spec fn ascii_lower(c: char) -> char {
    if 'A' <= c && c <= 'Z' {
        ((c as u8) + 32) as char
    } else {
        c
    }
}

/// Equality of two texts when ASCII letters are compared without case.
pub open spec fn eq_ignore_ascii_case(a: Seq<char>, b: Seq<char>) -> bool {
    a.len() == b.len() && forall|i: int| 0 <= i < a.len() ==> ascii_lower(#[trigger] a[i]) == ascii_lower(b[i])
}

fn lower_ascii_char(c: char) -> (r: char)
    ensures
        r == ascii_lower(c),
{
    if 'A' <= c && c <= 'Z' {
        ((c as u8) + 32) as char
    } else {
        c
    }
}

/// Compares a text with another, ASCII letters without case.
pub fn matches_ignore_ascii_case(a: &str, b: &str) -> (r: bool)
    ensures
        r == eq_ignore_ascii_case(a@, b@),
{
    let n = a.unicode_len();
    if n != b.unicode_len() {
        return false;
    }
    let mut i: usize = 0;
    while i < n
        invariant
            n == a@.len(),
            n == b@.len(),
            i <= n,
            forall|j: int| 0 <= j < i ==> ascii_lower(#[trigger] a@[j]) == ascii_lower(b@[j]),
        decreases n - i,
    {
        if lower_ascii_char(a.get_char(i)) != lower_ascii_char(b.get_char(i)) {
            return false;
        }
        i = i + 1;
    }
    true
}

/// What `format!("{:?}", _)` writes for an optional text.
pub uninterp spec fn debug_of_optional(s: Option<Seq<char>>) -> Seq<char>;

/// Relies on the `Debug` formatting of `Option<String>`: the text depends on
/// the value alone.
#[verifier::external_body]
fn debug_text(s: &Option<String>) -> (r: String)
    ensures
        r@ == debug_of_optional(opt_view(*s)),
{
    format!("{:?}", s)
}

pub open spec fn or_empty(s: Option<Seq<char>>) -> Seq<char> {
    match s {
        Some(v) => v,
        None => Seq::empty(),
    }
}

fn unwrap_or_empty(s: &Option<String>) -> (r: String)
    ensures
        r@ == or_empty(opt_view(*s)),
{
    match s {
        Some(v) => v.clone(),
        None => String::new(),
    }
}

/// A signed integer in decimal.
pub open spec fn signed_decimal(n: int) -> Seq<char> {
    if n < 0 {
        "-"@ + decimal((-n) as nat)
    } else {
        decimal(n as nat)
    }
}

fn to_signed_decimal(n: i32) -> (r: String)
    ensures
        r@ == signed_decimal(n as int),
{
    if n < 0 {
        let abs: u64 = (0 - (n as i64)) as u64;
        String::from_str("-").concat(to_decimal(abs).as_str())
    } else {
        to_decimal(n as u64)
    }
}

/// The line for an unmet condition.
pub open spec fn condition_line(c: PodCondition) -> Seq<char> {
    "Condition not met to start the container: "@ + c.typee@ + " -> "@ + debug_of_optional(opt_view(c.reason))
        + ": "@ + or_empty(opt_view(c.message))
}

/// One line for each condition whose status is `false`.
pub open spec fn condition_lines(cs: Seq<PodCondition>) -> Seq<Seq<char>>
    decreases cs.len(),
{
    if cs.len() == 0 {
        Seq::empty()
    } else {
        let rest = condition_lines(cs.drop_last());
        let c = cs.last();
        if eq_ignore_ascii_case(c.status@, "false"@) {
            rest.push(condition_line(c))
        } else {
            rest
        }
    }
}

/// The lines for the last state of one container: the message and exit code
/// of a termination, the message of a wait.
pub open spec fn last_state_lines(s: ContainerLastState) -> Seq<Seq<char>> {
    let terminated = match s.terminated {
        Some(t) => match t.message {
            Some(m) => seq!["terminated state message: "@ + m@, "terminated state exit code: "@ + signed_decimal(t.exit_code as int)],
            None => seq!["terminated state exit code: "@ + signed_decimal(t.exit_code as int)],
        },
        None => Seq::empty(),
    };
    let waiting = match s.waiting {
        Some(w) => match w.message {
            Some(m) => seq!["waiting state message: "@ + m@],
            None => Seq::empty(),
        },
        None => Seq::empty(),
    };
    terminated + waiting
}

pub open spec fn container_lines(ss: Seq<ContainerStatus>) -> Seq<Seq<char>>
    decreases ss.len(),
{
    if ss.len() == 0 {
        Seq::empty()
    } else {
        container_lines(ss.drop_last()) + match ss.last().last_state {
            Some(l) => last_state_lines(l),
            None => Seq::empty(),
        }
    }
}

pub open spec fn pod_lines(p: PodStatus) -> Seq<Seq<char>> {
    condition_lines(p.conditions@) + match p.container_statuses {
        Some(v) => container_lines(v@),
        None => Seq::empty(),
    }
}

pub open spec fn pods_lines(ps: Seq<PodStatus>) -> Seq<Seq<char>>
    decreases ps.len(),
{
    if ps.len() == 0 {
        Seq::empty()
    } else {
        pods_lines(ps.drop_last()) + pod_lines(ps.last())
    }
}

pub open spec fn event_line(e: KubernetesEvent, message: Seq<char>) -> Seq<char> {
    or_empty(opt_view(e.last_timestamp)) + " "@ + e.type_@ + " "@ + e.reason@ + ": "@ + message
}

/// One line for each event that is not of the `normal` type and has a
/// message.
pub open spec fn event_lines(es: Seq<KubernetesEvent>) -> Seq<Seq<char>>
    decreases es.len(),
{
    if es.len() == 0 {
        Seq::empty()
    } else {
        let rest = event_lines(es.drop_last());
        let e = es.last();
        match e.message {
            Some(m) => if lowercase_of(e.type_@) != "normal"@ {
                rest.push(event_line(e, m@))
            } else {
                rest
            },
            None => rest,
        }
    }
}

/// The evidence shown to a user whose service does not start: the logs of
/// its pods, the conditions they do not meet, how their containers last
/// stopped, and the abnormal events of the namespace.
pub open spec fn resource_information(
    logs: Seq<String>,
    pods: Seq<PodStatus>,
    events: Seq<KubernetesEvent>,
) -> Seq<Seq<char>> {
    strings_view(logs) + pods_lines(pods) + event_lines(events)
}

fn push_line(out: &mut Vec<String>, line: String)
    ensures
        strings_view(final(out)@) == strings_view(old(out)@).push(line@),
{
    let ghost before = out@;
    out.push(line);
    proof {
        assert(strings_view(out@) =~= strings_view(before).push(line@));
    }
}

fn append_condition_lines(out: &mut Vec<String>, conditions: &Vec<PodCondition>)
    ensures
        strings_view(final(out)@) == strings_view(old(out)@) + condition_lines(conditions@),
{
    let ghost start = strings_view(out@);
    let mut i: usize = 0;
    while i < conditions.len()
        invariant
            i <= conditions.len(),
            strings_view(out@) == start + condition_lines(conditions@.take(i as int)),
        decreases conditions.len() - i,
    {
        proof {
            assert(conditions@.take(i as int + 1).drop_last() =~= conditions@.take(i as int));
        }
        let c = &conditions[i];
        if matches_ignore_ascii_case(c.status.as_str(), "false") {
            let line = String::from_str("Condition not met to start the container: ").concat(c.typee.as_str()).concat(
                " -> ",
            ).concat(debug_text(&c.reason).as_str()).concat(": ").concat(unwrap_or_empty(&c.message).as_str());
            push_line(out, line);
        }
        i = i + 1;
    }
    proof {
        assert(conditions@.take(conditions.len() as int) =~= conditions@);
    }
}

fn append_last_state_lines(out: &mut Vec<String>, s: &ContainerLastState)
    ensures
        strings_view(final(out)@) == strings_view(old(out)@) + last_state_lines(*s),
{
    let ghost start = strings_view(out@);
    if let Some(t) = &s.terminated {
        if let Some(m) = &t.message {
            push_line(out, String::from_str("terminated state message: ").concat(m.as_str()));
        }
        push_line(out, String::from_str("terminated state exit code: ").concat(to_signed_decimal(t.exit_code).as_str()));
    }
    let ghost mid = strings_view(out@);
    if let Some(w) = &s.waiting {
        if let Some(m) = &w.message {
            push_line(out, String::from_str("waiting state message: ").concat(m.as_str()));
        }
    }
    proof {
        assert(strings_view(out@) =~= start + last_state_lines(*s));
    }
}

fn append_pod_lines(out: &mut Vec<String>, pod: &PodStatus)
    ensures
        strings_view(final(out)@) == strings_view(old(out)@) + pod_lines(*pod),
{
    let ghost start = strings_view(out@);
    append_condition_lines(out, &pod.conditions);
    let ghost mid = strings_view(out@);
    if let Some(statuses) = &pod.container_statuses {
        let mut i: usize = 0;
        while i < statuses.len()
            invariant
                i <= statuses.len(),
                strings_view(out@) == mid + container_lines(statuses@.take(i as int)),
            decreases statuses.len() - i,
        {
            proof {
                assert(statuses@.take(i as int + 1).drop_last() =~= statuses@.take(i as int));
            }
            let ghost before = strings_view(out@);
            if let Some(l) = &statuses[i].last_state {
                append_last_state_lines(out, l);
            }
            proof {
                assert(strings_view(out@) =~= mid + container_lines(statuses@.take(i as int + 1)));
            }
            i = i + 1;
        }
        proof {
            assert(statuses@.take(statuses.len() as int) =~= statuses@);
        }
    }
    proof {
        assert(strings_view(out@) =~= start + pod_lines(*pod));
    }
}

/// Collects the evidence for a user from what the cluster returned: the logs
/// of the selector, the statuses of its pods and the events of its namespace.
pub fn get_stateless_resource_information_for_user(
    logs: Vec<String>,
    pods: &Vec<PodStatus>,
    events: &Vec<KubernetesEvent>,
) -> (r: Vec<String>)
    ensures
        strings_view(r@) == resource_information(logs@, pods@, events@),
{
    let mut out = logs;
    let ghost start = strings_view(out@);
    let mut i: usize = 0;
    while i < pods.len()
        invariant
            i <= pods.len(),
            strings_view(out@) == start + pods_lines(pods@.take(i as int)),
        decreases pods.len() - i,
    {
        proof {
            assert(pods@.take(i as int + 1).drop_last() =~= pods@.take(i as int));
        }
        append_pod_lines(&mut out, &pods[i]);
        proof {
            assert(strings_view(out@) =~= start + pods_lines(pods@.take(i as int + 1)));
        }
        i = i + 1;
    }
    proof {
        assert(pods@.take(pods.len() as int) =~= pods@);
    }
    let ghost mid = strings_view(out@);
    let mut j: usize = 0;
    while j < events.len()
        invariant
            j <= events.len(),
            strings_view(out@) == mid + event_lines(events@.take(j as int)),
        decreases events.len() - j,
    {
        proof {
            assert(events@.take(j as int + 1).drop_last() =~= events@.take(j as int));
        }
        let e = &events[j];
        if let Some(m) = &e.message {
            let kind = to_lowercase(e.type_.as_str());
            if !kind.eq(&String::from_str("normal")) {
                let line = unwrap_or_empty(&e.last_timestamp).concat(" ").concat(e.type_.as_str()).concat(" ").concat(
                    e.reason.as_str(),
                ).concat(": ").concat(m.as_str());
                push_line(&mut out, line);
            }
        }
        j = j + 1;
    }
    proof {
        assert(events@.take(events.len() as int) =~= events@);
        assert(strings_view(out@) =~= resource_information(logs@, pods@, events@));
    }
    out
}

/// Where evidence is read from.
#[derive(Clone, Copy, Debug, PartialEq, Eq, Structural)]
pub enum EvidenceSource {
    Logs,
    Pods,
    Events,
}

pub open spec fn evidence_failure_tag(source: EvidenceSource) -> Tag {
    match source {
        EvidenceSource::Logs => Tag::K8sGetLogs,
        EvidenceSource::Pods => Tag::K8sCannotGetPods,
        EvidenceSource::Events => Tag::K8sGetEvents,
    }
}

pub open spec fn evidence_failure_message(source: EvidenceSource, selector: Seq<char>, namespace: Seq<char>) -> Seq<
    char,
> {
    match source {
        EvidenceSource::Logs => quoted(quoted("Cannot get logs of "@, selector) + " in namespace "@, namespace),
        EvidenceSource::Pods => quoted(quoted("Cannot get pods of "@, selector) + " in namespace "@, namespace),
        EvidenceSource::Events => quoted("Cannot get events of namespace "@, namespace),
    }
}

/// The error of a failed read of evidence: its kind by source, keeping the
/// cause.
pub fn evidence_failure(
    source: EvidenceSource,
    selector: &str,
    namespace: &str,
    event_details: EventDetails,
    cause: CommandError,
) -> (r: EngineError)
    ensures
        r.tag == evidence_failure_tag(source),
        r.event_details == event_details,
        r.user_log_message@ == evidence_failure_message(source, selector@, namespace@),
        r.underlying_error == Some(cause),
{
    let (tag, message) = match source {
        EvidenceSource::Logs => {
            let head = quote("Cannot get logs of ", selector).concat(" in namespace ");
            (Tag::K8sGetLogs, quote(head.as_str(), namespace))
        },
        EvidenceSource::Pods => {
            let head = quote("Cannot get pods of ", selector).concat(" in namespace ");
            (Tag::K8sCannotGetPods, quote(head.as_str(), namespace))
        },
        EvidenceSource::Events => (Tag::K8sGetEvents, quote("Cannot get events of namespace ", namespace)),
    };
    EngineError::new(tag, event_details, message, Some(cause))
}

} // verus!
