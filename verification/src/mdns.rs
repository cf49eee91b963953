//! Service resolver.
//!
//! The broker's address and port are discovered over multicast DNS.  The
//! runtime around the library joins the multicast group, sends the query
//! whenever one is due, and parses each inbound packet into an
//! address/port/instance triple; the resolver here owns the acceptance rule:
//! an answer counts only when both its address and its port are non-zero,
//! and the first valid answer wins.  Silence is never a failure — the
//! resolver keeps retrying until an answer arrives.

use vstd::prelude::*;

verus! {

/// An IPv4 address as its four octets.
#[derive(Clone, Copy, PartialEq, Eq, Structural, Debug)]
pub struct Ipv4 {
    pub a: u8,
    pub b: u8,
    pub c: u8,
    pub d: u8,
}

impl Ipv4 {
    /// The address `a.b.c.d`.
    pub fn new(a: u8, b: u8, c: u8, d: u8) -> (r: Ipv4)
        ensures
            r == (Ipv4 { a, b, c, d }),
    {
        Ipv4 { a, b, c, d }
    }

    /// The unspecified address `0.0.0.0`, which a response uses to mean "no
    /// answer yet".
    pub open spec fn spec_is_unspecified(self) -> bool {
        self.a == 0 && self.b == 0 && self.c == 0 && self.d == 0
    }
}

/// Where the broker lives.  Produced once by the resolver and immutable
/// afterwards.
#[derive(Clone, Copy, PartialEq, Eq, Structural, Debug)]
pub struct ServiceEndpoint {
    pub address: Ipv4,
    pub port: u16,
}

/// One parsed response: the address and port a packet reported for the
/// queried service.  A packet for another service, or one that carried no
/// usable records, parses to the zero address and zero port.
#[derive(Clone, Copy, PartialEq, Eq, Structural, Debug)]
pub struct MdnsAnswer {
    pub address: Ipv4,
    pub port: u16,
}

/// An answer is valid only when both its address and its port are non-zero;
/// `0.0.0.0` and port `0` mean "no answer yet", never a result.
pub open spec fn spec_answer_valid(a: MdnsAnswer) -> bool {
    a.port != 0 && !a.address.spec_is_unspecified()
}

/// The endpoint reported by the first valid answer, if any.
pub open spec fn spec_resolve(answers: Seq<MdnsAnswer>) -> Option<ServiceEndpoint>
    decreases answers.len(),
{
    if answers.len() == 0 {
        None
    } else if spec_answer_valid(answers[0]) {
        Some(ServiceEndpoint { address: answers[0].address, port: answers[0].port })
    } else {
        spec_resolve(answers.drop_first())
    }
}

/// Discovers a service's endpoint from parsed multicast responses.
pub struct MdnsFacade;

impl MdnsFacade {
    /// A resolver; it holds no state because every decision depends only on
    /// the answers it is shown.
    pub fn new() -> (r: Self)
        ensures
            r == MdnsFacade,
    {
        MdnsFacade
    }

    /// Decides whether one parsed answer resolves the query.
    pub fn accept_answer(&self, answer: &MdnsAnswer) -> (r: Option<ServiceEndpoint>)
        ensures
            match r {
                Some(e) => spec_answer_valid(*answer) && e.address == answer.address
                    && e.port == answer.port,
                None => !spec_answer_valid(*answer),
            },
    {
        if answer.port != 0
            && !(answer.address.a == 0 && answer.address.b == 0 && answer.address.c == 0
                && answer.address.d == 0)
        {
            Some(ServiceEndpoint { address: answer.address, port: answer.port })
        } else {
            None
        }
    }

    /// Resolves `service_name` from a sequence of parsed inbound answers:
    /// the first valid answer wins, with no aggregation or preference among
    /// responders, and a horizon with no valid answer resolves nothing —
    /// the live resolver then extends the window and keeps listening.
    /// Responses for other services were already blanked by the parser, so
    /// `service_name` does not take part in the decision here.
    pub fn query_service(&self, service_name: &str, answers: &Vec<MdnsAnswer>) -> (r: Option<
        ServiceEndpoint,
    >)
        ensures
            r == spec_resolve(answers@),
            match r {
                Some(e) => exists|i: int|
                    {
                        &&& 0 <= i < answers@.len()
                        &&& spec_answer_valid(answers@[i])
                        &&& e.address == answers@[i].address
                        &&& e.port == answers@[i].port
                        &&& forall|j: int| 0 <= j < i ==> !spec_answer_valid(answers@[j])
                    },
                None => forall|i: int|
                    0 <= i < answers@.len() ==> !spec_answer_valid(answers@[i]),
            },
    {
        let mut i: usize = 0;
        proof {
            assert(answers@.skip(0) =~= answers@);
        }
        while i < answers.len()
            invariant
                i <= answers@.len(),
                forall|j: int| 0 <= j < i ==> !spec_answer_valid(answers@[j]),
                spec_resolve(answers@) == spec_resolve(answers@.skip(i as int)),
            decreases answers@.len() - i,
        {
            proof {
                assert(answers@.skip(i as int)[0] == answers@[i as int]);
            }
            if let Some(endpoint) = self.accept_answer(&answers[i]) {
                return Some(endpoint);
            }
            proof {
                assert(answers@.skip(i as int).drop_first() =~= answers@.skip(i as int + 1));
            }
            i = i + 1;
        }
        None
    }
}

/// Resolver correctness: when the inbound sequence holds a valid answer, the
/// resolver returns exactly the first one; when it holds none, the resolver
/// does not falsely succeed.
pub proof fn lemma_resolver_correctness(answers: Seq<MdnsAnswer>, i: int)
    requires
        0 <= i < answers.len(),
        spec_answer_valid(answers[i]),
        forall|j: int| 0 <= j < i ==> !spec_answer_valid(answers[j]),
    ensures
        spec_resolve(answers) == Some(
            ServiceEndpoint { address: answers[i].address, port: answers[i].port },
        ),
    decreases i,
{
    if i > 0 {
        lemma_resolver_correctness(answers.drop_first(), i - 1);
    }
}

/// The other half of resolver correctness: with no valid answer in the
/// sequence, nothing resolves.
pub proof fn lemma_resolver_no_false_success(answers: Seq<MdnsAnswer>)
    requires
        forall|i: int| 0 <= i < answers.len() ==> !spec_answer_valid(answers[i]),
    ensures
        spec_resolve(answers) is None,
    decreases answers.len(),
{
    if answers.len() > 0 {
        lemma_resolver_no_false_success(answers.drop_first());
    }
}

} // verus!
