//! The seal-request service: builds an `EngineCommand` for each request and
//! hands it to the authoring task over an unbounded channel.
use vstd::prelude::*;
use futures::channel::mpsc::UnboundedSender;

verus! {

#[verifier::external_type_specification]
#[verifier::external_body]
#[verifier::reject_recursive_types(T)]
pub struct ExUnboundedSender<T>(UnboundedSender<T>);

/// The code of the error returned once the authoring task has gone away.
pub const SHUTDOWN_ERROR_CODE: i64 = 500;

/// The message of the error returned once the authoring task has gone away.
pub open spec fn shutdown_message() -> Seq<char> {
    "Server is shutting down"@
}

/// The "engine" receives these messages over a channel.
pub enum EngineCommand<Hash> {
    /// Tells the engine to propose a new block.
    ///
    /// If `create_empty` is true, a block is produced even when the
    /// transaction pool holds nothing; `parent_hash`, when given, names the
    /// block to build on.
    SealNewBlock { create_empty: bool, parent_hash: Option<Hash> },
}

/// The command that asks for a block on `parent_hash` (or on the best block
/// when none is given), empty or not as `create_empty` says.
pub fn seal_command<Hash>(create_empty: bool, parent_hash: Option<Hash>) -> (c: EngineCommand<Hash>)
    ensures
        c == (EngineCommand::SealNewBlock { create_empty, parent_hash }),
{
    EngineCommand::SealNewBlock { create_empty, parent_hash }
}

/// A server-side error as reported to a remote caller.
pub struct ServerError {
    pub code: i64,
    pub message: String,
}

impl ServerError {
    /// The error reported to a caller once the authoring task has stopped.
    pub open spec fn is_shutdown(&self) -> bool {
        self.code == SHUTDOWN_ERROR_CODE && self.message@ == shutdown_message()
    }

    pub fn shutdown() -> (e: ServerError)
        ensures
            e.is_shutdown(),
    {
        proof {
            reveal_strlit("Server is shutting down");
        }
        ServerError { code: SHUTDOWN_ERROR_CODE, message: "Server is shutting down".to_owned() }
    }
}

/// Relies on futures' `UnboundedSender::unbounded_send`: it never waits, and
/// when it fails (the receiving half is gone) its error hands back, through
/// `TrySendError::into_inner`, the very message it was given. It panics only
/// when the count of queued messages would overflow its counter, which
/// depends on the queue rather than on the arguments.
#[verifier::external_body]
fn send_unbounded<T>(sender: &UnboundedSender<T>, msg: T) -> (r: Result<(), T>)
    ensures
        r matches Err(back) ==> back == msg,
{
    sender.unbounded_send(msg).map_err(|e| e.into_inner())
}

/// What a caller of the seal-request service is told, given the outcome of
/// handing the command to the channel: success when it was enqueued, the
/// shutdown error when the channel gave it back.
pub fn seal_reply<Hash>(outcome: Result<(), EngineCommand<Hash>>) -> (r: Result<(), ServerError>)
    ensures
        r is Ok <==> outcome is Ok,
        r matches Err(e) ==> e.is_shutdown(),
{
    match outcome {
        Ok(()) => Ok(()),
        Err(_) => Err(ServerError::shutdown()),
    }
}

/// The seal-request service, bound to the sending half of the channel that
/// the authoring task reads.
#[verifier::reject_recursive_types(Hash)]
pub struct ManualSeal<Hash> {
    import_block_channel: UnboundedSender<EngineCommand<Hash>>,
}

impl<Hash> ManualSeal<Hash> {
    /// The sending half that requests go to.
    pub closed spec fn channel(&self) -> UnboundedSender<EngineCommand<Hash>> {
        self.import_block_channel
    }

    /// Creates a service that sends its commands on `import_block_channel`.
    pub fn new(import_block_channel: UnboundedSender<EngineCommand<Hash>>) -> (r: Self)
        ensures
            r.channel() == import_block_channel,
    {
        ManualSeal { import_block_channel }
    }

    /// Asks the authoring task for a new block: hands the channel the one
    /// command `seal_command(create_empty, parent_hash)`, and answers as
    /// `seal_reply` does for the outcome. Returns as soon as the request is
    /// queued, not once a block exists; fails with the shutdown error when
    /// the authoring task has stopped reading.
    pub fn create_block(&self, create_empty: bool, parent_hash: Option<Hash>) -> (r: Result<
        (),
        ServerError,
    >)
        ensures
            r matches Err(e) ==> e.is_shutdown(),
    {
        let command = seal_command(create_empty, parent_hash);
        let outcome = send_unbounded(&self.import_block_channel, command);
        seal_reply(outcome)
    }
}

} // verus!
