//! The decisions of a peer RPC: which URLs it is posted to, in what order,
//! when it gives up, and how a failure or a reply becomes its result.
//!
//! The caller performs the HTTP work: it posts to the URL it is given, and
//! reports back either the decoded reply or how the send failed.

use vstd::prelude::*;

use crate::network::addrs::{lemma_peer_addresses_shape, peer_addresses, target_addrs};
use crate::network::Network;
use crate::NodeId;

verus! {

/// The URL of the RPC endpoint `uri` on a peer reached at `addr`:
/// `<scheme>://<addr>/<uri>`.
pub open spec fn rpc_url_of(scheme: Seq<char>, addr: Seq<char>, uri: Seq<char>) -> Seq<char> {
    scheme + "://"@ + addr + "/"@ + uri
}

/// The URLs an RPC to a peer with address field `addr` is posted to, in order.
pub open spec fn rpc_urls_of(scheme: Seq<char>, addr: Seq<char>, uri: Seq<char>) -> Seq<
    Seq<char>,
> {
    peer_addresses(addr).map_values(|a: Seq<char>| rpc_url_of(scheme, a, uri))
}

/// Law: the URL of an RPC endpoint is the scheme, then `://`, then the
/// address, then `/`, then the endpoint path, with nothing left out or added.
pub proof fn lemma_rpc_url_layout(scheme: Seq<char>, addr: Seq<char>, uri: Seq<char>)
    ensures
        rpc_url_of(scheme, addr, uri).len() == scheme.len() + addr.len() + uri.len() + 4,
        rpc_url_of(scheme, addr, uri).subrange(0, scheme.len() as int) == scheme,
        rpc_url_of(scheme, addr, uri).subrange(scheme.len() as int, (scheme.len() + 3) as int) == seq![
            ':',
            '/',
            '/',
        ],
        rpc_url_of(scheme, addr, uri).subrange((scheme.len() + 3) as int, (scheme.len() + 3 + addr.len()) as int)
            == addr,
        rpc_url_of(scheme, addr, uri)[(scheme.len() + 3 + addr.len()) as int] == '/',
        rpc_url_of(scheme, addr, uri).subrange(
            (scheme.len() + 4 + addr.len()) as int,
            rpc_url_of(scheme, addr, uri).len() as int,
        ) == uri,
{
    reveal_strlit("://");
    reveal_strlit("/");
    let r = rpc_url_of(scheme, addr, uri);
    assert(r =~= scheme + seq![':', '/', '/'] + addr + seq!['/'] + uri);
    assert(r.subrange(0, scheme.len() as int) =~= scheme);
    assert(r.subrange(scheme.len() as int, (scheme.len() + 3) as int) =~= seq![':', '/', '/']);
    assert(r.subrange((scheme.len() + 3) as int, (scheme.len() + 3 + addr.len()) as int) =~= addr);
    assert(r.subrange((scheme.len() + 4 + addr.len()) as int, r.len() as int) =~= uri);
}

/// Law: an RPC is posted to one URL per address of the peer, in the order of
/// the addresses, each being the scheme, `://`, that address, `/` and the
/// endpoint path; how many addresses are tried does not depend on the path.
pub proof fn lemma_rpc_urls_per_address(
    scheme: Seq<char>,
    addr: Seq<char>,
    uri: Seq<char>,
    other_uri: Seq<char>,
)
    ensures
        rpc_urls_of(scheme, addr, uri).len() == peer_addresses(addr).len(),
        rpc_urls_of(scheme, addr, uri).len() == rpc_urls_of(scheme, addr, other_uri).len(),
        rpc_urls_of(scheme, addr, uri).len() >= 1,
        forall|i: int|
            0 <= i < peer_addresses(addr).len() ==> #[trigger] rpc_urls_of(scheme, addr, uri)[i]
                == scheme + "://"@ + peer_addresses(addr)[i] + "/"@ + uri,
{
    lemma_peer_addresses_shape(addr);
}

/// Builds `<scheme>://<addr>/<uri>`.
pub fn rpc_url(scheme: &str, addr: &str, uri: &str) -> (r: String)
    ensures
        r@ == rpc_url_of(scheme@, addr@, uri@),
        r@ == scheme@ + "://"@ + addr@ + "/"@ + uri@,
{
    let r = String::from_str(scheme).concat("://").concat(addr).concat("/").concat(uri);
    assert(r@ =~= rpc_url_of(scheme@, addr@, uri@));
    r
}

/// How sending an RPC request to one address failed.
pub enum SendFailure<E> {
    /// No connection could be made.
    Connect(E),
    /// Anything else went wrong while sending.
    Other(E),
}

/// Why a peer RPC failed.
pub enum RpcError<E, R> {
    /// The peer could not be connected to at any of its addresses.
    Unreachable(E),
    /// The request or its reply could not be transferred or decoded.
    Network(E),
    /// The peer answered with an error of its own.
    Remote { target: NodeId, source: R },
}

/// What a failed send becomes once no address is left: a connection failure
/// makes the peer unreachable, any other failure is a network error.
pub open spec fn send_failure_error<E, R>(failure: SendFailure<E>) -> RpcError<E, R> {
    match failure {
        SendFailure::Connect(e) => RpcError::Unreachable(e),
        SendFailure::Other(e) => RpcError::Network(e),
    }
}

/// The result of an RPC whose request reached the peer: a reply that could
/// not be decoded is a network error, a decoded error is the peer's error.
pub open spec fn reply_result<T, R, E>(target: NodeId, reply: Result<Result<T, R>, E>) -> Result<
    T,
    RpcError<E, R>,
> {
    match reply {
        Ok(Ok(t)) => Ok(t),
        Ok(Err(r)) => Err(RpcError::Remote { target, source: r }),
        Err(e) => Err(RpcError::Network(e)),
    }
}

/// The progress of one RPC through the URLs of its peer.
pub struct RpcAttempts {
    urls: Vec<String>,
    current: usize,
}

impl RpcAttempts {
    #[verifier::type_invariant]
    spec fn well_formed(self) -> bool {
        self.current < self.urls.len()
    }

    /// The URLs of the RPC, in the order they are tried.
    pub closed spec fn urls(self) -> Seq<Seq<char>> {
        self.urls@.map_values(|u: String| u@)
    }

    /// The index of the URL the request is being posted to.
    pub closed spec fn current(self) -> nat {
        self.current as nat
    }

    /// Starts an RPC to the endpoint `uri` of a peer whose address field is
    /// `addr`, over the network's scheme. The first URL is tried first.
    pub fn start(network: &Network, addr: &str, uri: &str) -> (r: RpcAttempts)
        ensures
            r.urls() == rpc_urls_of(
                if network.calls_over_https() {
                    "https"@
                } else {
                    "http"@
                },
                addr@,
                uri@,
            ),
            r.current() == 0,
            r.urls().len() >= 1,
            r.urls().len() == peer_addresses(addr@).len(),
            forall|i: int|
                0 <= i < peer_addresses(addr@).len() ==> #[trigger] r.urls()[i] == (if network.calls_over_https() {
                    "https"@
                } else {
                    "http"@
                }) + "://"@ + peer_addresses(addr@)[i] + "/"@ + uri@,
    {
        let scheme = network.scheme();
        let addrs = target_addrs(addr);
        let ghost want = rpc_urls_of(scheme@, addr@, uri@);
        let mut urls: Vec<String> = Vec::new();
        let mut i: usize = 0;
        while i < addrs.len()
            invariant
                i <= addrs.len(),
                addrs@.map_values(|s: &str| s@) == peer_addresses(addr@),
                want == rpc_urls_of(scheme@, addr@, uri@),
                urls@.len() == i,
                forall|j: int| 0 <= j < i ==> (#[trigger] urls@[j])@ == want[j],
            decreases addrs.len() - i,
        {
            let u = rpc_url(scheme, addrs[i], uri);
            assert(addrs@.map_values(|s: &str| s@)[i as int] == addrs@[i as int]@);
            urls.push(u);
            i = i + 1;
        }
        let r = RpcAttempts { urls, current: 0 };
        assert(r.urls() =~= want);
        proof {
            lemma_rpc_urls_per_address(scheme@, addr@, uri@, uri@);
        }
        r
    }

    /// The URL the request is to be posted to now.
    pub fn current_url(&self) -> (r: &String)
        ensures
            self.current() < self.urls().len(),
            r@ == self.urls()[self.current() as int],
    {
        proof {
            use_type_invariant(self);
        }
        &self.urls[self.current]
    }

    /// Records that posting to the current URL failed. While URLs are left,
    /// the next one becomes current and `None` is returned; after the last
    /// one, the RPC fails with what this failure amounts to.
    pub fn after_send_failure<E, R>(&mut self, failure: SendFailure<E>) -> (r: Option<
        RpcError<E, R>,
    >)
        ensures
            final(self).urls() == old(self).urls(),
            final(self).current() < final(self).urls().len(),
            old(self).current() + 1 < old(self).urls().len() ==> {
                &&& r is None
                &&& final(self).current() == old(self).current() + 1
            },
            old(self).current() + 1 >= old(self).urls().len() ==> {
                &&& r == Some(send_failure_error::<E, R>(failure))
                &&& final(self).current() == old(self).current()
            },
    {
        proof {
            use_type_invariant(&*self);
        }
        if self.current + 1 < self.urls.len() {
            self.current = self.current + 1;
            None
        } else {
            match failure {
                SendFailure::Connect(e) => Some(RpcError::Unreachable(e)),
                SendFailure::Other(e) => Some(RpcError::Network(e)),
            }
        }
    }
}

impl RpcAttempts {
    /// Ends the RPC once the request posted to the current URL has reached
    /// the peer at `target`, with the decoded `reply` (see `reply_result`):
    /// no other URL is tried.
    pub fn finish<T, R, E>(self, target: NodeId, reply: Result<Result<T, R>, E>) -> (r: Result<
        T,
        RpcError<E, R>,
    >)
        ensures
            r == reply_result(target, reply),
    {
        finish_reply(target, reply)
    }
}

/// The result of an RPC whose request reached the peer at `target`, given the
/// decoded reply: the peer's answer, its error, or a decoding failure.
pub fn finish_reply<T, R, E>(target: NodeId, reply: Result<Result<T, R>, E>) -> (r: Result<
    T,
    RpcError<E, R>,
>)
    ensures
        r == reply_result(target, reply),
{
    match reply {
        Ok(Ok(t)) => Ok(t),
        Ok(Err(e)) => Err(RpcError::Remote { target, source: e }),
        Err(e) => Err(RpcError::Network(e)),
    }
}

} // verus!
