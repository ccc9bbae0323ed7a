//! The decisions of the network probes: which response of the public
//! address services is taken, in which order the services are asked, and
//! what a timed download says about the bandwidth.
//!
//! No probe fails. A probe that finds nothing has no result.

use vstd::prelude::*;
use vstd::string::*;
use crate::models::{Bandwidth, SystemInfo};

verus! {

/// Whether `c` is white space: a character with the Unicode property
/// `White_Space`.
pub open spec fn is_whitespace(c: char) -> bool {
    let n = c as u32;
    ||| 0x9 <= n <= 0xd
    ||| n == 0x20
    ||| n == 0x85
    ||| n == 0xa0
    ||| n == 0x1680
    ||| 0x2000 <= n <= 0x200a
    ||| n == 0x2028
    ||| n == 0x2029
    ||| n == 0x202f
    ||| n == 0x205f
    ||| n == 0x3000
}

/// A text without the white space at its start.
pub open spec fn trimmed_start(text: Seq<char>) -> Seq<char>
    decreases text.len(),
{
    if text.len() > 0 && is_whitespace(text.first()) {
        trimmed_start(text.drop_first())
    } else {
        text
    }
}

/// A text without the white space at its end.
pub open spec fn trimmed_end(text: Seq<char>) -> Seq<char>
    decreases text.len(),
{
    if text.len() > 0 && is_whitespace(text.last()) {
        trimmed_end(text.drop_last())
    } else {
        text
    }
}

/// A text without the white space at its start and at its end.
pub open spec fn trimmed(text: Seq<char>) -> Seq<char> {
    trimmed_end(trimmed_start(text))
}

/// `str::trim` of the standard library. The contract rests on its
/// documentation: it returns the text without leading and trailing white
/// space, where white space is what the Unicode property `White_Space`
/// says.
#[verifier::external_body]
fn trim(text: &str) -> (r: &str)
    ensures
        r@ == trimmed(text@),
{
    text.trim()
}

/// What a response of an address service is taken for: its body without
/// the white space around it, unless nothing is left of it or the request
/// gave no body at all.
pub open spec fn accepted(response: Option<Seq<char>>) -> Option<Seq<char>> {
    match response {
        Some(body) => if trimmed(body).len() > 0 {
            Some(trimmed(body))
        } else {
            None
        },
        None => None,
    }
}

/// The first response that is taken, of the first `count` responses.
pub open spec fn first_accepted(responses: Seq<Option<Seq<char>>>, count: nat) -> Option<Seq<char>>
    decreases count,
{
    if count == 0 {
        None
    } else {
        match first_accepted(responses, (count - 1) as nat) {
            Some(address) => Some(address),
            None => accepted(responses[count - 1]),
        }
    }
}

/// The texts of a list of responses.
pub open spec fn response_texts(responses: Seq<Option<String>>) -> Seq<Option<Seq<char>>> {
    responses.map_values(|r: Option<String>| crate::models::opt_text(r))
}

/// What a probe does next.
#[derive(Debug, Clone, PartialEq, Eq)]
pub enum ProbeAction {
    /// Ask the service with this index, and come back with its response.
    Ask(usize),
    /// The probe has ended, with this result.
    Finish(Option<String>),
}

/// The mathematical value of a [`ProbeAction`].
pub enum ProbeActionView {
    Ask(nat),
    Finish(Option<Seq<char>>),
}

impl View for ProbeAction {
    type V = ProbeActionView;

    open spec fn view(&self) -> ProbeActionView {
        match self {
            ProbeAction::Ask(index) => ProbeActionView::Ask(*index as nat),
            ProbeAction::Finish(result) => ProbeActionView::Finish(crate::models::opt_text(*result)),
        }
    }
}

/// How a public address probe over `services` services begins: with the
/// first service, or with no result where there is no service.
pub open spec fn spec_first_action(services: nat) -> ProbeActionView {
    if services > 0 {
        ProbeActionView::Ask(0)
    } else {
        ProbeActionView::Finish(None)
    }
}

/// How a public address probe goes on after the service `index` has
/// answered: it ends with the response if that is taken, asks the next
/// service if there is one, and ends without a result if there is none.
pub open spec fn spec_next_action(index: nat, services: nat, response: Option<Seq<char>>)
    -> ProbeActionView {
    match accepted(response) {
        Some(address) => ProbeActionView::Finish(Some(address)),
        None => if index + 1 < services {
            ProbeActionView::Ask(index + 1)
        } else {
            ProbeActionView::Finish(None)
        },
    }
}

/// The outcome of a timed download: how many bytes came, and how long it
/// took.
#[derive(Debug, Clone, Copy, PartialEq, Eq, Structural)]
pub struct Download {
    pub bytes_received: u64,
    pub elapsed_nanos: u128,
}

/// The bandwidth estimate that a download gives: none where the download
/// failed or took no time, and else the measurement itself.
pub open spec fn spec_bandwidth(download: Option<Download>) -> Option<Bandwidth> {
    match download {
        Some(d) => if d.elapsed_nanos > 0 {
            Some(Bandwidth { bytes: d.bytes_received, elapsed_nanos: d.elapsed_nanos })
        } else {
            None
        },
        None => None,
    }
}

/// The time that one request to an address service may take, in seconds.
pub const PUBLIC_IP_TIMEOUT_SECS: u64 = 5;

/// The time that the download of the bandwidth probe may take, in seconds.
pub const BANDWIDTH_TIMEOUT_SECS: u64 = 10;

/// The number of address services.
pub const PUBLIC_IP_SERVICES: usize = 3;

/// The address of the service with this index. The services are asked in
/// the order of their indices.
pub fn public_ip_service(index: usize) -> (url: &'static str)
    requires
        index < PUBLIC_IP_SERVICES,
    ensures
        url@ == if index == 0 {
            "https://api.ipify.org"@
        } else if index == 1 {
            "https://ifconfig.me/ip"@
        } else {
            "https://icanhazip.com"@
        },
{
    if index == 0 {
        "https://api.ipify.org"
    } else if index == 1 {
        "https://ifconfig.me/ip"
    } else {
        "https://icanhazip.com"
    }
}

/// The address that the bandwidth probe downloads from: a payload of a
/// million bytes.
pub fn bandwidth_service() -> (url: &'static str)
    ensures
        url@ == "https://speed.cloudflare.com/__down?bytes=1000000"@,
{
    "https://speed.cloudflare.com/__down?bytes=1000000"
}

/// What a response of an address service is taken for.
pub fn accept_response(response: &Option<String>) -> (r: Option<String>)
    ensures
        crate::models::opt_text(r) == accepted(crate::models::opt_text(*response)),
{
    match response {
        Some(body) => {
            let address = trim(body.as_str());
            if address.is_empty() {
                None
            } else {
                Some(String::from_str(address))
            }
        },
        None => None,
    }
}

/// How a public address probe over `services` services begins.
pub fn first_action(services: usize) -> (action: ProbeAction)
    ensures
        action@ == spec_first_action(services as nat),
{
    if services > 0 {
        ProbeAction::Ask(0)
    } else {
        ProbeAction::Finish(None)
    }
}

/// How a public address probe goes on after the service `index` has
/// answered with `response`, where `None` stands for a request that failed.
pub fn next_action(index: usize, services: usize, response: &Option<String>) -> (action:
    ProbeAction)
    ensures
        action@ == spec_next_action(
            index as nat,
            services as nat,
            crate::models::opt_text(*response),
        ),
{
    match accept_response(response) {
        Some(address) => ProbeAction::Finish(Some(address)),
        None => {
            if index < services && index + 1 < services {
                ProbeAction::Ask(index + 1)
            } else {
                ProbeAction::Finish(None)
            }
        },
    }
}

impl SystemInfo {
    /// The public address that a list of responses gives: the first
    /// response that is taken, in the order of the list. `None` in the list
    /// stands for a request that failed.
    pub fn get_public_ip(responses: &Vec<Option<String>>) -> (r: Option<String>)
        ensures
            crate::models::opt_text(r) == first_accepted(
                response_texts(responses@),
                responses@.len(),
            ),
    {
        let mut i: usize = 0;
        while i < responses.len()
            invariant
                i <= responses.len(),
                first_accepted(response_texts(responses@), i as nat) is None,
            decreases responses.len() - i,
        {
            let found = accept_response(&responses[i]);
            assert(response_texts(responses@)[i as int] == crate::models::opt_text(
                responses@[i as int],
            ));
            if found.is_some() {
                proof {
                    lemma_first_accepted_stays(
                        response_texts(responses@),
                        (i + 1) as nat,
                        responses@.len(),
                    );
                }
                return found;
            }
            i += 1;
        }
        None
    }

    /// The bandwidth estimate that a timed download gives, where `None`
    /// stands for a download that failed.
    pub fn benchmark_bandwidth(download: Option<Download>) -> (r: Option<Bandwidth>)
        ensures
            r == spec_bandwidth(download),
            r matches Some(b) ==> b.wf(),
    {
        match download {
            Some(d) => {
                if d.elapsed_nanos > 0 {
                    Some(Bandwidth { bytes: d.bytes_received, elapsed_nanos: d.elapsed_nanos })
                } else {
                    None
                }
            },
            None => None,
        }
    }
}

/// Once a response is taken, the responses after it change nothing.
pub proof fn lemma_first_accepted_stays(
    responses: Seq<Option<Seq<char>>>,
    count: nat,
    more: nat,
)
    requires
        count <= more,
        first_accepted(responses, count) is Some,
    ensures
        first_accepted(responses, more) == first_accepted(responses, count),
    decreases more,
{
    if count < more {
        lemma_first_accepted_stays(responses, count, (more - 1) as nat);
    }
}

/// As long as no response is taken, there is no result.
pub proof fn lemma_first_accepted_none(responses: Seq<Option<Seq<char>>>, count: nat)
    requires
        forall|j: int| 0 <= j < count ==> accepted(#[trigger] responses[j]) is None,
    ensures
        first_accepted(responses, count) is None,
    decreases count,
{
    if count > 0 {
        lemma_first_accepted_none(responses, (count - 1) as nat);
    }
}

/// The run of a public address probe against the responses that the
/// services would give, from the service `index` on: the result of the
/// probe, and the number of services that were asked when it ended.
pub open spec fn probe_run(responses: Seq<Option<Seq<char>>>, index: nat) -> (
    Option<Seq<char>>,
    nat,
)
    decreases responses.len() - index,
{
    if index >= responses.len() {
        (None, index)
    } else {
        match spec_next_action(index, responses.len(), responses[index as int]) {
            ProbeActionView::Finish(result) => (result, index + 1),
            ProbeActionView::Ask(next) => if index < next {
                probe_run(responses, next)
            } else {
                (None, index + 1)
            },
        }
    }
}

/// A probe asks the services one after the other: the service that it asks
/// next is the one after the service that has just answered, and it asks
/// for it only where the answer was not taken.
pub proof fn lemma_probe_asks_next(index: nat, services: nat, response: Option<Seq<char>>)
    ensures
        spec_next_action(index, services, response) matches ProbeActionView::Ask(next) ==> next
            == index + 1 && next < services && accepted(response) is None,
        accepted(response) is Some ==> spec_next_action(index, services, response)
            == ProbeActionView::Finish(accepted(response)),
{
}

/// A run from the service `index` on, before which no response was taken.
proof fn lemma_probe_run_from(responses: Seq<Option<Seq<char>>>, index: nat)
    requires
        index < responses.len(),
        forall|j: int| 0 <= j < index ==> accepted(#[trigger] responses[j]) is None,
    ensures
        probe_run(responses, index).0 == first_accepted(responses, responses.len()),
        index < probe_run(responses, index).1 <= responses.len(),
        forall|j: int|
            0 <= j < probe_run(responses, index).1 - 1 ==> accepted(#[trigger] responses[j])
                is None,
        probe_run(responses, index).0 is Some ==> probe_run(responses, index).0 == accepted(
            responses[probe_run(responses, index).1 - 1],
        ),
        probe_run(responses, index).0 is None ==> probe_run(responses, index).1
            == responses.len(),
    decreases responses.len() - index,
{
    lemma_first_accepted_none(responses, index);
    if accepted(responses[index as int]) is Some {
        lemma_first_accepted_stays(responses, index + 1, responses.len());
    } else if index + 1 < responses.len() {
        assert forall|j: int| 0 <= j < index + 1 implies accepted(#[trigger] responses[j])
            is None by {}
        lemma_probe_run_from(responses, index + 1);
    } else {
        assert forall|j: int| 0 <= j < index + 1 implies accepted(#[trigger] responses[j])
            is None by {}
        lemma_first_accepted_none(responses, index + 1);
    }
}

/// A public address probe asks the services strictly in their order and
/// stops at the first response that it takes: its result is that response,
/// every service before it was asked and gave none that was taken, and no
/// service after it is asked. It has no result only where every service
/// was asked and none gave a response that was taken.
pub proof fn lemma_probe_in_order(responses: Seq<Option<Seq<char>>>)
    ensures
        probe_run(responses, 0).0 == first_accepted(responses, responses.len()),
        probe_run(responses, 0).1 <= responses.len(),
        forall|j: int|
            0 <= j < probe_run(responses, 0).1 - 1 ==> accepted(#[trigger] responses[j]) is None,
        probe_run(responses, 0).0 is Some ==> probe_run(responses, 0).1 >= 1 && probe_run(
            responses,
            0,
        ).0 == accepted(responses[probe_run(responses, 0).1 - 1]),
        probe_run(responses, 0).0 is None ==> probe_run(responses, 0).1 == responses.len(),
{
    if responses.len() > 0 {
        lemma_probe_run_from(responses, 0);
    }
}

/// A download that failed gives no estimate. A download that brought
/// something and took time gives one, which stands for a rate above zero.
pub proof fn lemma_bandwidth_estimate(download: Option<Download>)
    ensures
        download is None ==> spec_bandwidth(download) is None,
        download matches Some(d) && d.elapsed_nanos == 0 ==> spec_bandwidth(download) is None,
        download matches Some(d) && d.elapsed_nanos > 0 ==> spec_bandwidth(download) is Some
            && spec_bandwidth(download)->0.wf(),
        download matches Some(d) && d.elapsed_nanos > 0 && d.bytes_received > 0
            ==> spec_bandwidth(download)->0.exceeds(0),
{
}

} // verus!
