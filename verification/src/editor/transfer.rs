//! Moving a file between the local machine and a remote host.
//!
//! A transfer goes over the client of the connection's protocol. `Transfer` says what to look
//! up and what to call, and is told what came of it.
use vstd::prelude::*;

use crate::text::same_text;

verus! {

/// Which way the file goes.
#[derive(Clone, Copy, Debug, PartialEq, Eq, Structural)]
pub enum Direction {
    Download,
    Upload,
}

/// The clients that can move a file.
#[derive(Clone, Copy, Debug, PartialEq, Eq, Structural)]
pub enum Route {
    Sftp,
    Ftp,
    /// The SSH connection itself.
    Ssh,
}

/// What the transfer is to do next.
#[derive(Debug, PartialEq, Eq)]
pub enum TransferStage {
    /// Look up the type that the connection is registered with.
    LookUpType,
    /// Look up the connection's client on this route.
    LookUpClient(Route),
    /// Move the file with that client.
    Move(Route),
    /// The bytes moved, or why none were.
    Done(Result<u64, String>),
}

/// What came of the transfer's last stage.
#[derive(Debug, PartialEq, Eq)]
pub enum TransferInput {
    /// The type of the connection, where it has one.
    ConnectionType(Option<String>),
    /// Whether the route has a client for the connection.
    Client(bool),
    /// The bytes moved, or the client's error.
    Moved(Result<u64, String>),
}

/// A stage with its texts taken by their characters.
pub ghost enum TransferStageView {
    LookUpType,
    LookUpClient(Route),
    Move(Route),
    Done(Result<u64, Seq<char>>),
}

/// An input with its texts taken by their characters.
pub ghost enum TransferInputView {
    ConnectionType(Option<Seq<char>>),
    Client(bool),
    Moved(Result<u64, Seq<char>>),
}

impl View for TransferStage {
    type V = TransferStageView;

    open spec fn view(&self) -> TransferStageView {
        match *self {
            TransferStage::LookUpType => TransferStageView::LookUpType,
            TransferStage::LookUpClient(route) => TransferStageView::LookUpClient(route),
            TransferStage::Move(route) => TransferStageView::Move(route),
            TransferStage::Done(Ok(bytes)) => TransferStageView::Done(Ok(bytes)),
            TransferStage::Done(Err(error)) => TransferStageView::Done(Err(error@)),
        }
    }
}

impl View for TransferInput {
    type V = TransferInputView;

    open spec fn view(&self) -> TransferInputView {
        match *self {
            TransferInput::ConnectionType(Some(name)) => TransferInputView::ConnectionType(
                Some(name@),
            ),
            TransferInput::ConnectionType(None) => TransferInputView::ConnectionType(None),
            TransferInput::Client(found) => TransferInputView::Client(found),
            TransferInput::Moved(Ok(bytes)) => TransferInputView::Moved(Ok(bytes)),
            TransferInput::Moved(Err(error)) => TransferInputView::Moved(Err(error@)),
        }
    }
}

/// The route of a connection type, or the error where there is none.
pub open spec fn route_of(connection_type: Option<Seq<char>>) -> Result<Route, Seq<char>> {
    match connection_type {
        None => Ok(Route::Ssh),
        Some(name) => if name == "SFTP"@ {
            Ok(Route::Sftp)
        } else if name == "FTP"@ {
            Ok(Route::Ftp)
        } else {
            Err("Unsupported protocol: "@ + name)
        },
    }
}

/// The error where a route has no client for a connection.
pub open spec fn no_client(route: Route, connection_id: Seq<char>) -> Seq<char> {
    match route {
        Route::Sftp => "SFTP connection not found"@,
        Route::Ftp => "FTP connection not found"@,
        Route::Ssh => "No connection found for '"@ + connection_id + "'"@,
    }
}

/// The stage that follows on an input. An input that does not answer the stage changes nothing.
pub open spec fn transfer_next(
    connection_id: Seq<char>,
    stage: TransferStageView,
    input: TransferInputView,
) -> TransferStageView {
    match (stage, input) {
        (
            TransferStageView::LookUpType,
            TransferInputView::ConnectionType(connection_type),
        ) => match route_of(connection_type) {
            Ok(route) => TransferStageView::LookUpClient(route),
            Err(error) => TransferStageView::Done(Err(error)),
        },
        (TransferStageView::LookUpClient(route), TransferInputView::Client(found)) => if found {
            TransferStageView::Move(route)
        } else {
            TransferStageView::Done(Err(no_client(route, connection_id)))
        },
        (TransferStageView::Move(_), TransferInputView::Moved(result)) => TransferStageView::Done(
            result,
        ),
        _ => stage,
    }
}

/// The route of a connection type: SFTP and FTP have clients of their own, a connection
/// without a type is an SSH one, and every other type is refused.
pub fn route_for(connection_type: Option<&str>) -> (route: Result<Route, String>)
    ensures
        ({
            let named = match connection_type {
                Some(name) => Some(name@),
                None => None,
            };
            match route {
                Ok(found) => route_of(named) == Ok::<Route, Seq<char>>(found),
                Err(error) => route_of(named) == Err::<Route, Seq<char>>(error@),
            }
        }),
{
    match connection_type {
        None => Ok(Route::Ssh),
        Some(name) => {
            if same_text(name, "SFTP") {
                Ok(Route::Sftp)
            } else if same_text(name, "FTP") {
                Ok(Route::Ftp)
            } else {
                Err("Unsupported protocol: ".to_owned().concat(name))
            }
        },
    }
}

/// The error where a route has no client for a connection.
pub fn missing_client(route: Route, connection_id: &str) -> (error: String)
    ensures
        error@ == no_client(route, connection_id@),
{
    match route {
        Route::Sftp => "SFTP connection not found".to_owned(),
        Route::Ftp => "FTP connection not found".to_owned(),
        Route::Ssh => "No connection found for '".to_owned().concat(connection_id).concat("'"),
    }
}

/// One transfer of a file.
pub struct Transfer {
    pub direction: Direction,
    pub connection_id: String,
    pub remote_path: String,
    pub local_path: String,
    pub stage: TransferStage,
}

/// Starts the download of a remote file to a local path.
pub fn download_to_path(connection_id: String, remote_path: String, local_path: String) -> (transfer:
    Transfer)
    ensures
        transfer.direction == Direction::Download,
        transfer.connection_id@ == connection_id@,
        transfer.remote_path@ == remote_path@,
        transfer.local_path@ == local_path@,
        transfer.stage@ == TransferStageView::LookUpType,
{
    Transfer {
        direction: Direction::Download,
        connection_id,
        remote_path,
        local_path,
        stage: TransferStage::LookUpType,
    }
}

/// Starts the upload of a local file to a remote path.
pub fn upload_from_path(connection_id: String, local_path: String, remote_path: String) -> (transfer:
    Transfer)
    ensures
        transfer.direction == Direction::Upload,
        transfer.connection_id@ == connection_id@,
        transfer.remote_path@ == remote_path@,
        transfer.local_path@ == local_path@,
        transfer.stage@ == TransferStageView::LookUpType,
{
    Transfer {
        direction: Direction::Upload,
        connection_id,
        remote_path,
        local_path,
        stage: TransferStage::LookUpType,
    }
}

impl Transfer {
    /// What never changes over the life of a transfer.
    pub open spec fn same_transfer(self, other: Transfer) -> bool {
        &&& self.direction == other.direction
        &&& self.connection_id@ == other.connection_id@
        &&& self.remote_path@ == other.remote_path@
        &&& self.local_path@ == other.local_path@
    }

    /// The path that the file is read from.
    pub fn source(&self) -> (path: &str)
        ensures
            path@ == match self.direction {
                Direction::Download => self.remote_path@,
                Direction::Upload => self.local_path@,
            },
    {
        match self.direction {
            Direction::Download => self.remote_path.as_str(),
            Direction::Upload => self.local_path.as_str(),
        }
    }

    /// The path that the file is written to.
    pub fn destination(&self) -> (path: &str)
        ensures
            path@ == match self.direction {
                Direction::Download => self.local_path@,
                Direction::Upload => self.remote_path@,
            },
    {
        match self.direction {
            Direction::Download => self.local_path.as_str(),
            Direction::Upload => self.remote_path.as_str(),
        }
    }

    /// Takes what came of the stage and moves on to the next one.
    pub fn step(&mut self, input: TransferInput)
        ensures
            final(self).stage@ == transfer_next(
                old(self).connection_id@,
                old(self).stage@,
                input@,
            ),
            final(self).same_transfer(*old(self)),
    {
        match (&self.stage, input) {
            (TransferStage::LookUpType, TransferInput::ConnectionType(connection_type)) => {
                let route = match &connection_type {
                    Some(name) => route_for(Some(name.as_str())),
                    None => route_for(None),
                };
                self.stage = match route {
                    Ok(route) => TransferStage::LookUpClient(route),
                    Err(error) => TransferStage::Done(Err(error)),
                };
            },
            (TransferStage::LookUpClient(route), TransferInput::Client(found)) => {
                let route = *route;
                self.stage = if found {
                    TransferStage::Move(route)
                } else {
                    TransferStage::Done(Err(missing_client(route, self.connection_id.as_str())))
                };
            },
            (TransferStage::Move(_), TransferInput::Moved(result)) => {
                self.stage = TransferStage::Done(result);
            },
            _ => {},
        }
    }
}

/// The stage of a transfer after a run of inputs.
pub open spec fn transfer_run(
    connection_id: Seq<char>,
    inputs: Seq<TransferInputView>,
) -> TransferStageView
    decreases inputs.len(),
{
    if inputs.len() == 0 {
        TransferStageView::LookUpType
    } else {
        transfer_next(connection_id, transfer_run(connection_id, inputs.drop_last()), inputs.last())
    }
}

proof fn lemma_transfer_entered(
    connection_id: Seq<char>,
    inputs: Seq<TransferInputView>,
) -> (i: int)
    requires
        transfer_run(connection_id, inputs) != TransferStageView::LookUpType,
    ensures
        0 <= i < inputs.len(),
        transfer_run(connection_id, inputs.take(i)) != transfer_run(connection_id, inputs),
        transfer_next(connection_id, transfer_run(connection_id, inputs.take(i)), inputs[i])
            == transfer_run(connection_id, inputs),
    decreases inputs.len(),
{
    let n = inputs.len() - 1;
    let earlier = inputs.drop_last();
    assert(inputs.take(n) == earlier);
    if transfer_run(connection_id, earlier) != transfer_run(connection_id, inputs) {
        n
    } else {
        let i = lemma_transfer_entered(connection_id, earlier);
        assert(earlier.take(i) == inputs.take(i));
        i
    }
}

/// A file is moved only by a client that the connection has, on the route of the connection's
/// type.
pub proof fn a_file_moves_on_the_route_of_its_connection(
    connection_id: Seq<char>,
    inputs: Seq<TransferInputView>,
    route: Route,
) -> (steps: (int, int))
    requires
        transfer_run(connection_id, inputs) == TransferStageView::Move(route),
    ensures
        ({
            let (typed, found) = steps;
            &&& 0 <= typed < found < inputs.len()
            &&& inputs[typed] matches TransferInputView::ConnectionType(connection_type)
            &&& route_of(connection_type) == Ok::<Route, Seq<char>>(route)
            &&& inputs[found] == TransferInputView::Client(true)
        }),
{
    let found = lemma_transfer_entered(connection_id, inputs);
    let typed = lemma_transfer_entered(connection_id, inputs.take(found));
    (typed, found)
}

/// A transfer that succeeds has moved the bytes that the client says it has.
pub proof fn a_transfer_succeeds_as_its_client_does(
    connection_id: Seq<char>,
    inputs: Seq<TransferInputView>,
    bytes: u64,
) -> (i: int)
    requires
        transfer_run(connection_id, inputs) == TransferStageView::Done(
            Ok::<u64, Seq<char>>(bytes),
        ),
    ensures
        0 <= i < inputs.len(),
        transfer_run(connection_id, inputs.take(i)) is Move,
        inputs[i] == TransferInputView::Moved(Ok::<u64, Seq<char>>(bytes)),
{
    lemma_transfer_entered(connection_id, inputs)
}

/// Once a client moves the file, the transfer ends as that client says: with the bytes it has
/// moved, however many, or with its error.
pub proof fn a_transfer_ends_as_its_client_does(
    connection_id: Seq<char>,
    inputs: Seq<TransferInputView>,
    result: Result<u64, Seq<char>>,
)
    requires
        transfer_run(connection_id, inputs) is Move,
    ensures
        transfer_run(connection_id, inputs.push(TransferInputView::Moved(result)))
            == TransferStageView::Done(result),
{
    assert(inputs.push(TransferInputView::Moved(result)).drop_last() == inputs);
}

/// A connection without a type goes over SSH, one of type `SFTP` or `FTP` over that client, and
/// one of any other type is refused with its type in the error.
pub proof fn a_connection_type_decides_the_route(
    connection_id: Seq<char>,
    inputs: Seq<TransferInputView>,
    name: Seq<char>,
)
    requires
        transfer_run(connection_id, inputs) is LookUpType,
    ensures
        transfer_run(connection_id, inputs.push(TransferInputView::ConnectionType(None)))
            == TransferStageView::LookUpClient(Route::Ssh),
        ({
            let named = transfer_run(
                connection_id,
                inputs.push(TransferInputView::ConnectionType(Some(name))),
            );
            &&& named == TransferStageView::LookUpClient(Route::Sftp) <==> name == "SFTP"@
            &&& named == TransferStageView::LookUpClient(Route::Ftp) <==> name == "FTP"@
            &&& name != "SFTP"@ && name != "FTP"@ ==> named == TransferStageView::Done(
                Err::<u64, Seq<char>>("Unsupported protocol: "@ + name),
            )
        }),
{
    reveal_strlit("SFTP");
    reveal_strlit("FTP");
    assert("SFTP"@.len() != "FTP"@.len());
    assert(inputs.push(TransferInputView::ConnectionType(None)).drop_last() == inputs);
    assert(inputs.push(TransferInputView::ConnectionType(Some(name))).drop_last() == inputs);
}

/// A client that is there moves the file. Where there is none, the transfer fails and says which
/// client is missing, and for SSH also for which connection.
pub proof fn a_file_needs_a_client(
    connection_id: Seq<char>,
    inputs: Seq<TransferInputView>,
    route: Route,
)
    requires
        transfer_run(connection_id, inputs) == TransferStageView::LookUpClient(route),
    ensures
        transfer_run(connection_id, inputs.push(TransferInputView::Client(true)))
            == TransferStageView::Move(route),
        transfer_run(connection_id, inputs.push(TransferInputView::Client(false)))
            == TransferStageView::Done(
            Err::<u64, Seq<char>>(
                match route {
                    Route::Sftp => "SFTP connection not found"@,
                    Route::Ftp => "FTP connection not found"@,
                    Route::Ssh => "No connection found for '"@ + connection_id + "'"@,
                },
            ),
        ),
{
    assert(inputs.push(TransferInputView::Client(true)).drop_last() == inputs);
    assert(inputs.push(TransferInputView::Client(false)).drop_last() == inputs);
}

/// Only the answer to its stage moves a transfer on, and nothing moves one that has ended.
pub proof fn a_transfer_waits_for_its_answer(
    connection_id: Seq<char>,
    inputs: Seq<TransferInputView>,
    input: TransferInputView,
)
    requires
        match transfer_run(connection_id, inputs) {
            TransferStageView::LookUpType => !(input is ConnectionType),
            TransferStageView::LookUpClient(_) => !(input is Client),
            TransferStageView::Move(_) => !(input is Moved),
            TransferStageView::Done(_) => true,
        },
    ensures
        transfer_run(connection_id, inputs.push(input)) == transfer_run(connection_id, inputs),
{
    assert(inputs.push(input).drop_last() == inputs);
}

/// A transfer is seen as it is: no number and no character of its stage or of its inputs is lost
/// or changed in the view of it.
pub proof fn a_transfer_is_seen_as_it_is(stage: TransferStage, input: TransferInput)
    ensures
        match stage {
            TransferStage::LookUpType => stage@ is LookUpType,
            TransferStage::LookUpClient(route) => stage@ == TransferStageView::LookUpClient(route),
            TransferStage::Move(route) => stage@ == TransferStageView::Move(route),
            TransferStage::Done(Ok(bytes)) => stage@ == TransferStageView::Done(
                Ok::<u64, Seq<char>>(bytes),
            ),
            TransferStage::Done(Err(error)) => stage@ == TransferStageView::Done(
                Err::<u64, Seq<char>>(error@),
            ),
        },
        match input {
            TransferInput::ConnectionType(None) => input@ == TransferInputView::ConnectionType(
                None,
            ),
            TransferInput::ConnectionType(Some(name)) => input@
                == TransferInputView::ConnectionType(Some(name@)),
            TransferInput::Client(found) => input@ == TransferInputView::Client(found),
            TransferInput::Moved(Ok(bytes)) => input@ == TransferInputView::Moved(
                Ok::<u64, Seq<char>>(bytes),
            ),
            TransferInput::Moved(Err(error)) => input@ == TransferInputView::Moved(
                Err::<u64, Seq<char>>(error@),
            ),
        },
{
}

/// A transfer moves the same file the same way over its whole life.
pub proof fn a_transfer_keeps_its_file(before: Transfer, after: Transfer)
    requires
        after.same_transfer(before),
    ensures
        after.direction == before.direction,
        after.connection_id@ == before.connection_id@,
        after.remote_path@ == before.remote_path@,
        after.local_path@ == before.local_path@,
{
}

} // verus!
