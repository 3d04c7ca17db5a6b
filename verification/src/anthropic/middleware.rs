//! Who may use the gateway.

use std::sync::Arc;

use parking_lot::RwLock;
use vstd::prelude::*;

use crate::text::chars_of;

verus! {

/// The lock of the lock_api crate that parking_lot builds on.
#[verifier::external_type_specification]
#[verifier::external_body]
#[verifier::reject_recursive_types(R)]
#[verifier::reject_recursive_types(T)]
pub struct ExRwLock<R, T: ?Sized>(parking_lot::lock_api::RwLock<R, T>);

/// The state of such a lock.
#[verifier::external_type_specification]
#[verifier::external_body]
pub struct ExRawRwLock(parking_lot::RawRwLock);

/// What requests to the gateway share. The provider answers the requests.
#[derive(Debug)]
pub struct AppState<P> {
    /// The key of the gateway, which can change while it runs.
    pub api_key: Arc<RwLock<String>>,
    /// The provider, if there is one.
    pub kiro_provider: Option<Arc<P>>,
    /// Whether thoughts are cut out of answers that come in one piece.
    pub extract_thinking: bool,
}

/// What becomes of a request.
#[derive(Debug, Clone, Copy, PartialEq, Eq, Structural)]
pub enum AuthDecision {
    /// It is passed on.
    Forward,
    /// It is answered with this status.
    Reject {
        /// The status.
        status: u16,
    },
}

/// Whether a lock holds the text at some moment of its life. What a lock holds can
/// change while it is shared, so which of its texts it holds at a given moment is
/// left open.
pub uninterp spec fn holds_at_some_time(lock: RwLock<String>, text: Seq<char>) -> bool;

/// `parking_lot::RwLock::new`: a lock that holds the key when it is made.
#[verifier::external_body]
fn locked(key: String) -> (r: RwLock<String>)
    ensures
        holds_at_some_time(r, key@),
{
    RwLock::new(key)
}

/// `parking_lot::RwLock::read`: a text that the lock holds, the one of the moment.
/// Others may change it, so which one that is is not claimed.
#[verifier::external_body]
fn read_locked(lock: &RwLock<String>) -> (r: String)
    ensures
        holds_at_some_time(*lock, r@),
{
    lock.read().clone()
}

/// What becomes of a request that presents a key, or none, while another key is
/// set: it is passed on if the two are the same.
pub open spec fn decision(presented: Option<Seq<char>>, current: Seq<char>) -> AuthDecision {
    if presented == Some(current) {
        AuthDecision::Forward
    } else {
        AuthDecision::Reject { status: 401 }
    }
}

/// The key that a request presents, as text.
pub open spec fn key_of(presented: Option<&str>) -> Option<Seq<char>> {
    match presented {
        Some(k) => Some(k@),
        None => None,
    }
}

/// Whether two texts are the same. The loop does not stop at the first difference;
/// the contract speaks of the result alone and not of the time it takes.
pub fn constant_time_eq(a: &str, b: &str) -> (r: bool)
    ensures
        r == (a@ == b@),
{
    let x = chars_of(a);
    let y = chars_of(b);
    if x.len() != y.len() {
        return false;
    }
    let mut differences: usize = 0;
    let mut i: usize = 0;
    while i < x.len()
        invariant
            x@.len() == y@.len(),
            i <= x@.len(),
            differences <= i,
            differences == 0 <==> (forall|j: int| 0 <= j < i ==> x@[j] == y@[j]),
        decreases x@.len() - i,
    {
        let differs: usize = if x[i] == y[i] {
            0
        } else {
            1
        };
        differences = differences + differs;
        i = i + 1;
    }
    if differences == 0 {
        assert(a@ =~= b@);
    }
    differences == 0
}

/// What becomes of a request that presents a key, or none, while another key is
/// set.
pub fn decide(presented: Option<&str>, current: &str) -> (r: AuthDecision)
    ensures
        r == decision(
            key_of(presented),
            current@,
        ),
{
    match presented {
        Some(k) => if constant_time_eq(k, current) {
            AuthDecision::Forward
        } else {
            AuthDecision::Reject { status: 401 }
        },
        None => AuthDecision::Reject { status: 401 },
    }
}

impl<P> AppState<P> {
    /// A state with a key of its own and without a provider. The lock holds the
    /// key until someone changes it.
    pub fn new(api_key: String, extract_thinking: bool) -> (r: Self)
        ensures
            holds_at_some_time(*r.api_key, api_key@),
            r.kiro_provider is None,
            r.extract_thinking == extract_thinking,
    {
        AppState { api_key: Arc::new(locked(api_key)), kiro_provider: None, extract_thinking }
    }

    /// A state whose key is shared, without a provider.
    pub fn with_shared_api_key(api_key: Arc<RwLock<String>>, extract_thinking: bool) -> (r: Self)
        ensures
            r == (AppState::<P> { api_key, kiro_provider: None, extract_thinking }),
    {
        AppState { api_key, kiro_provider: None, extract_thinking }
    }

    /// The state with a provider.
    pub fn with_kiro_provider(self, provider: P) -> (r: Self)
        ensures
            r == (AppState { kiro_provider: Some(Arc::new(provider)), ..self }),
    {
        AppState { kiro_provider: Some(Arc::new(provider)), ..self }
    }
}

impl<P> Clone for AppState<P> {
    fn clone(&self) -> (r: Self)
        ensures
            r == *self,
    {
        AppState {
            api_key: self.api_key.clone(),
            kiro_provider: match &self.kiro_provider {
                Some(p) => Some(p.clone()),
                None => None,
            },
            extract_thinking: self.extract_thinking,
        }
    }
}

/// What becomes of a request that presents a key, or none, with the key that is
/// set at the moment: one that the lock of the state holds. Which of them it is
/// depends on who has changed it; [`decide`] says what follows from each. A request
/// that is passed on presents a key of that lock.
pub fn auth_middleware<P>(state: &AppState<P>, presented: Option<&str>) -> (r: AuthDecision)
    ensures
        presented is None ==> r == (AuthDecision::Reject { status: 401 }),
        exists|current: Seq<char>|
            holds_at_some_time(*state.api_key, current) && r == #[trigger] decision(
                key_of(presented),
                current,
            ),
        r == AuthDecision::Forward ==> key_of(presented) is Some && holds_at_some_time(
            *state.api_key,
            key_of(presented).unwrap(),
        ),
{
    let current = read_locked(&state.api_key);
    decide(presented, current.as_str())
}

/// A request is passed on only if it presents the key that is set.
pub proof fn only_the_key_is_passed_on(presented: Option<Seq<char>>, current: Seq<char>)
    ensures
        decision(presented, current) == AuthDecision::Forward <==> presented == Some(current),
{
}

/// A request is passed on exactly if the key that it presents is the one that is set,
/// character for character; otherwise, and without a key, it is answered with 401.
pub proof fn only_the_same_key_opens(
    presented: &str,
    current: &str,
    same: bool,
    r: AuthDecision,
    without: AuthDecision,
)
    requires
        call_ensures(constant_time_eq, (presented, current), same),
        call_ensures(decide, (Some(presented), current), r),
        call_ensures(decide, (None, current), without),
    ensures
        same <==> presented@ == current@,
        presented@ == current@ ==> r == AuthDecision::Forward,
        presented@ != current@ ==> r == (AuthDecision::Reject { status: 401 }),
        without == (AuthDecision::Reject { status: 401 }),
{
}

/// A request that the gateway passes on presents a key that the gateway holds, and one
/// without a key is answered with 401. A new state holds the key that it is made with, and
/// one that is given a provider has the key that it had.
pub proof fn the_gateway_opens_to_its_key<P>(
    state: AppState<P>,
    presented: &str,
    r: AuthDecision,
    without: AuthDecision,
    provider: P,
    provided: AppState<P>,
    shared: AppState<P>,
    extract_thinking: bool,
    key: String,
    fresh: AppState<P>,
)
    requires
        call_ensures(AppState::<P>::new, (key, extract_thinking), fresh),
        call_ensures(auth_middleware::<P>, (&state, Some(presented)), r),
        call_ensures(auth_middleware::<P>, (&state, None), without),
        call_ensures(AppState::<P>::with_kiro_provider, (state, provider), provided),
        call_ensures(
            AppState::<P>::with_shared_api_key,
            (state.api_key, extract_thinking),
            shared,
        ),
    ensures
        r == AuthDecision::Forward ==> holds_at_some_time(*state.api_key, presented@),
        r == AuthDecision::Forward || r == (AuthDecision::Reject { status: 401 }),
        without == (AuthDecision::Reject { status: 401 }),
        provided.api_key == state.api_key && provided.extract_thinking == state.extract_thinking,
        provided.kiro_provider matches Some(p) && *p == provider,
        holds_at_some_time(*fresh.api_key, key@) && fresh.kiro_provider is None
            && fresh.extract_thinking == extract_thinking,
        shared.api_key == state.api_key && shared.kiro_provider is None && shared.extract_thinking
            == extract_thinking,
{
}

} // verus!
