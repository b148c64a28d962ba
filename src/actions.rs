//! The contract calls that the agent makes: ticking a processor, enqueueing
//! messages under an authorization label, and executing a zk authorization.
use vstd::prelude::*;

verus! {

/// One message for the processor, carried as its encoded bytes.
#[derive(Clone, Debug)]
pub enum ProcessorMessage {
    /// A wasm execute message, passed on as encoded json.
    CosmwasmExecuteMsg { msg: Vec<u8> },
}

/// A contract call, ready to be encoded and submitted.
#[derive(Clone, Debug)]
pub enum ChainAction {
    /// A call with no arguments that makes the processor run its queue.
    Tick,
    /// Messages queued under `label`, to run in the order given.
    Enqueue { label: String, messages: Vec<ProcessorMessage>, ttl: Option<u64> },
    /// A proof of program execution and a proof of a domain claim, with the
    /// public inputs of each, checked together in one transaction.
    ExecuteZkAuthorization {
        label: String,
        message: Vec<u8>,
        proof: Vec<u8>,
        domain_message: Vec<u8>,
        domain_proof: Vec<u8>,
    },
}

/// The bytes a processor message carries.
pub open spec fn payload_of(m: ProcessorMessage) -> Seq<u8> {
    match m {
        ProcessorMessage::CosmwasmExecuteMsg { msg } => msg@,
    }
}

/// Builds the tick call.
pub fn tick_action() -> (r: ChainAction)
    ensures
        r is Tick,
{
    ChainAction::Tick
}

/// Wraps each encoded message as a wasm execute message, in the order
/// given, under `label` and with no expiry.
pub fn enqueue_action(label: &str, messages: Vec<Vec<u8>>) -> (r: ChainAction)
    ensures
        r matches ChainAction::Enqueue { label: l, messages: ms, ttl } && l@ == label@
            && ttl is None && ms@.len() == messages@.len() && forall|i: int|
            0 <= i < messages@.len() ==> #[trigger] payload_of(ms@[i]) == messages@[i]@,
{
    let mut wrapped: Vec<ProcessorMessage> = Vec::new();
    let mut rest = messages;
    let ghost input = rest@;
    while rest.len() > 0
        invariant
            rest@ == input.subrange(0, rest@.len() as int),
            rest@.len() + wrapped@.len() == input.len(),
            forall|j: int|
                0 <= j < wrapped@.len() ==> #[trigger] payload_of(wrapped@[j]) == input[rest@.len()
                    + j]@,
        decreases rest@.len(),
    {
        let ghost before = wrapped@;
        let msg = rest.pop().unwrap();
        wrapped.insert(0, ProcessorMessage::CosmwasmExecuteMsg { msg });
        proof {
            assert forall|j: int| 0 <= j < wrapped@.len() implies #[trigger] payload_of(wrapped@[j])
                == input[rest@.len() + j]@ by {
                if j > 0 {
                    assert(wrapped@[j] == before[j - 1]);
                }
            }
        }
    }
    ChainAction::Enqueue { label: label.to_owned(), messages: wrapped, ttl: None }
}

/// Builds the zk authorization call from the program's (proof, inputs) pair
/// and the domain's (proof, inputs) pair.
pub fn zk_authorization_action(
    label: &str,
    program: (Vec<u8>, Vec<u8>),
    domain: (Vec<u8>, Vec<u8>),
) -> (r: ChainAction)
    ensures
        r matches ChainAction::ExecuteZkAuthorization {
            label: l,
            message,
            proof,
            domain_message,
            domain_proof,
        } && l@ == label@ && proof@ == program.0@ && message@ == program.1@ && domain_proof@
            == domain.0@ && domain_message@ == domain.1@,
{
    let (proof, message) = program;
    let (domain_proof, domain_message) = domain;
    ChainAction::ExecuteZkAuthorization {
        label: label.to_owned(),
        message,
        proof,
        domain_message,
        domain_proof,
    }
}

} // verus!
