//! What the service keeps in Redis, and the commands that put it there and fetch it.
//!
//! A command is plain data: whoever holds a connection sends it.
use vstd::prelude::*;
use vstd::string::*;
use r2d2_redis::RedisConnectionManager;
use redis::RedisError;

verus! {

/// Where the database listens.
pub const REDIS_URL: &'static str = "redis://127.0.0.1/";

/// The last index that a listing of public uploads asks for, counted from 0.
pub const LAST_LISTED: isize = 20;

/// An error that keeps the service from starting.
#[derive(Debug)]
pub enum StartError {
    Redis(RedisError),
    Io(std::io::Error),
}

/// What is known of a stored file.
#[derive(Debug, Clone, PartialEq)]
pub struct FileInfo {
    pub name: String,
    pub desc: String,
    pub file_id: String,
    pub uploader: String,
}

/// The texts of a `FileInfo`.
#[verifier::ext_equal]
pub struct FileInfoView {
    pub name: Seq<char>,
    pub desc: Seq<char>,
    pub file_id: Seq<char>,
    pub uploader: Seq<char>,
}

impl View for FileInfo {
    type V = FileInfoView;

    open spec fn view(&self) -> FileInfoView {
        FileInfoView {
            name: self.name@,
            desc: self.desc@,
            file_id: self.file_id@,
            uploader: self.uploader@,
        }
    }
}

impl DeepView for FileInfo {
    type V = FileInfoView;

    open spec fn deep_view(&self) -> FileInfoView {
        self@
    }
}

/// One command to the database.
#[derive(Debug, PartialEq)]
pub enum Command {
    /// Sets `field` of the hash at `key`.
    HSet { key: String, field: String, value: FileInfo },
    /// Reads `field` of the hash at `key`.
    HGet { key: String, field: String },
    /// Counts the fields of the hash at `key`.
    HLen { key: String },
    /// Puts `item` in front of the list at `key`.
    LPush { key: String, item: String },
    /// Reads the list at `key` from index `start` up to and with index `stop`.
    LRange { key: String, start: isize, stop: isize },
    /// Counts the entries of the list at `key`.
    LLen { key: String },
}

/// A `Command` over texts.
#[verifier::ext_equal]
pub enum CommandView {
    HSet { key: Seq<char>, field: Seq<char>, value: FileInfoView },
    HGet { key: Seq<char>, field: Seq<char> },
    HLen { key: Seq<char> },
    LPush { key: Seq<char>, item: Seq<char> },
    LRange { key: Seq<char>, start: int, stop: int },
    LLen { key: Seq<char> },
}

impl View for Command {
    type V = CommandView;

    open spec fn view(&self) -> CommandView {
        match *self {
            Command::HSet { key, field, value } => CommandView::HSet {
                key: key@,
                field: field@,
                value: value@,
            },
            Command::HGet { key, field } => CommandView::HGet { key: key@, field: field@ },
            Command::HLen { key } => CommandView::HLen { key: key@ },
            Command::LPush { key, item } => CommandView::LPush { key: key@, item: item@ },
            Command::LRange { key, start, stop } => CommandView::LRange {
                key: key@,
                start: start as int,
                stop: stop as int,
            },
            Command::LLen { key } => CommandView::LLen { key: key@ },
        }
    }
}

impl DeepView for Command {
    type V = CommandView;

    open spec fn deep_view(&self) -> CommandView {
        self@
    }
}

/// The key of the hash that holds every file under `prefix`.
pub open spec fn files_key(prefix: Seq<char>) -> Seq<char> {
    prefix + "::files"@
}

/// The key of the list that holds the ids of the public files under `prefix`.
pub open spec fn public_files_key(prefix: Seq<char>) -> Seq<char> {
    prefix + "::publicfiles"@
}

/// The commands that store a file: first its info, then, if it is public, its id.
pub open spec fn add_file_commands(
    prefix: Seq<char>,
    file_id: Seq<char>,
    file: FileInfoView,
    public: bool,
) -> Seq<CommandView> {
    let set = CommandView::HSet { key: files_key(prefix), field: file_id, value: file };
    if public {
        seq![set, CommandView::LPush { key: public_files_key(prefix), item: file_id }]
    } else {
        seq![set]
    }
}

/// The command that asks for the info of a file.
pub open spec fn get_file_command(prefix: Seq<char>, file_id: Seq<char>) -> CommandView {
    CommandView::HGet { key: files_key(prefix), field: file_id }
}

/// The command that asks for the ids of the latest public files.
pub open spec fn get_uploads_command(prefix: Seq<char>) -> CommandView {
    CommandView::LRange { key: public_files_key(prefix), start: 0, stop: LAST_LISTED as int }
}

#[verifier::external_type_specification]
#[verifier::external_body]
pub struct ExRedisError(RedisError);

#[verifier::external_type_specification]
#[verifier::external_body]
pub struct ExIoError(std::io::Error);

#[verifier::external_type_specification]
#[verifier::external_body]
pub struct ExRedisConnectionManager(RedisConnectionManager);

/// What `r2d2_redis::RedisConnectionManager::new` makes of a URL.
pub uninterp spec fn connection_manager_for(url: Seq<char>) -> Result<
    RedisConnectionManager,
    RedisError,
>;

/// Calls `r2d2_redis::RedisConnectionManager::new`, which reads the URL and opens no
/// connection, so what comes back depends on the URL alone. The address of a server
/// on this machine, as the documentation of `redis::Client` opens it, is accepted. On other
/// texts, with a host that is very long, the call may panic.
#[verifier::external_body]
fn connection_manager(url: &str) -> (manager: Result<RedisConnectionManager, RedisError>)
    requires
        url@ == REDIS_URL@,
    ensures
        manager == connection_manager_for(url@),
        manager is Ok,
{
    RedisConnectionManager::new(url)
}

/// Do: send `command`. `waiting` waits until it succeeded.
#[derive(Debug, PartialEq)]
pub struct AddFile {
    pub command: Command,
    pub waiting: Option<Command>,
}

/// The commands that are still to be sent.
impl View for AddFile {
    type V = Seq<CommandView>;

    open spec fn view(&self) -> Seq<CommandView> {
        match self.waiting {
            Some(next) => seq![self.command@, next@],
            None => seq![self.command@],
        }
    }
}

/// Where the adding of a file stands after a command was sent.
#[derive(Debug, PartialEq)]
pub enum Adding {
    /// There is more to send.
    Send(AddFile),
    /// It is over: the file was added, or a command failed.
    Over(Result<(), RedisError>),
}

/// An `Adding` over texts.
#[verifier::ext_equal]
pub enum AddingView {
    Send(Seq<CommandView>),
    Over(Result<(), RedisError>),
}

impl View for Adding {
    type V = AddingView;

    open spec fn view(&self) -> AddingView {
        match *self {
            Adding::Send(step) => AddingView::Send(step@),
            Adding::Over(result) => AddingView::Over(result),
        }
    }
}

/// How the adding of a file goes on when the first of `commands` was sent: a failure ends
/// it with its error, and the success of the last command ends it well.
pub open spec fn command_sent(
    commands: Seq<CommandView>,
    reply: Result<(), RedisError>,
) -> AddingView {
    match reply {
        Err(error) => AddingView::Over(Err(error)),
        Ok(_) => if commands.len() > 1 {
            AddingView::Send(commands.drop_first())
        } else {
            AddingView::Over(Ok(()))
        },
    }
}

/// What the adding of a file by `commands` ends in, given the reply to each of them.
pub open spec fn add_run(commands: Seq<CommandView>, replies: Seq<Result<(), RedisError>>) -> Result<
    (),
    RedisError,
>
    decreases commands.len(),
{
    match command_sent(commands, replies[0]) {
        AddingView::Send(rest) => if commands.len() > 1 {
            add_run(rest, replies.drop_first())
        } else {
            replies[0]
        },
        AddingView::Over(result) => result,
    }
}

/// Where the first `n` commands succeed and no more: a file is added when these are all of
/// its commands, and otherwise the adding ends in the error of the command that failed.
pub proof fn law_adding_ends_in_the_first_failure(
    commands: Seq<CommandView>,
    replies: Seq<Result<(), RedisError>>,
    n: int,
)
    requires
        commands.len() > 0,
        replies.len() >= commands.len(),
        0 <= n <= commands.len(),
        forall|i: int| 0 <= i < n ==> (#[trigger] replies[i]) is Ok,
        n < commands.len() ==> replies[n] is Err,
    ensures
        add_run(commands, replies) == if n < commands.len() {
            replies[n]
        } else {
            Ok(())
        },
    decreases commands.len(),
{
    if n > 0 && commands.len() > 1 {
        law_adding_ends_in_the_first_failure(
            commands.drop_first(),
            replies.drop_first(),
            n - 1,
        );
    }
}

/// Names for what one instance of the service keeps in the database.
#[derive(Debug, Clone, PartialEq)]
pub struct FlupDb {
    pub key_prefix: String,
}

impl View for FlupDb {
    type V = Seq<char>;

    open spec fn view(&self) -> Seq<char> {
        self.key_prefix@
    }
}

impl FlupDb {
    /// Takes a connection manager that was made, or the reason why none was.
    pub fn opened(
        key_prefix: String,
        manager: Result<RedisConnectionManager, RedisError>,
    ) -> (db: Result<(FlupDb, RedisConnectionManager), StartError>)
        ensures
            db == (match manager {
                Ok(manager) => Ok((FlupDb { key_prefix }, manager)),
                Err(error) => Err(StartError::Redis(error)),
            }),
    {
        match manager {
            Err(error) => Err(StartError::Redis(error)),
            Ok(manager) => Ok((FlupDb { key_prefix }, manager)),
        }
    }

    /// A database whose keys start with `key_prefix`, and what connects to it.
    pub fn new(key_prefix: String) -> (db: Result<(FlupDb, RedisConnectionManager), StartError>)
        ensures
            db is Ok,
            db->Ok_0.0@ == key_prefix@,
            db->Ok_0.0.key_prefix == key_prefix,
            connection_manager_for(REDIS_URL@) == Ok::<RedisConnectionManager, RedisError>(
                db->Ok_0.1,
            ),
    {
        FlupDb::opened(key_prefix, connection_manager(REDIS_URL))
    }

    fn files(&self) -> (key: String)
        ensures
            key@ == files_key(self@),
    {
        self.key_prefix.clone().concat("::files")
    }

    fn public_files(&self) -> (key: String)
        ensures
            key@ == public_files_key(self@),
    {
        self.key_prefix.clone().concat("::publicfiles")
    }

    /// Starts to store a file: first its info, then, if it is public, its id.
    pub fn add_file(&self, file_id: String, file: FileInfo, public: bool) -> (step: AddFile)
        ensures
            step@ == add_file_commands(self@, file_id@, file@, public),
            step.command matches Command::HSet { key, field, value } && key@ == self.key_prefix@
                + "::files"@ && field@ == file_id@ && value == file,
            step.waiting is Some <==> public,
            step.waiting matches Some(push) ==> push matches Command::LPush { key, item } && key@
                == self.key_prefix@ + "::publicfiles"@ && item@ == file_id@,
    {
        let command = Command::HSet { key: self.files(), field: file_id.clone(), value: file };
        let waiting = if public {
            Some(Command::LPush { key: self.public_files(), item: file_id })
        } else {
            None
        };
        AddFile { command, waiting }
    }

    /// Goes on storing a file after a command succeeded, or failed.
    pub fn add_file_sent(&self, step: AddFile, reply: Result<(), RedisError>) -> (next: Adding)
        ensures
            next@ == command_sent(step@, reply),
            reply matches Err(error) ==> next == Adding::Over(Err(error)),
            reply is Ok && step.waiting is None ==> next == Adding::Over(Ok(())),
            reply is Ok && step.waiting is Some ==> (next matches Adding::Send(next)
                && next.command == step.waiting->0 && next.waiting is None),
    {
        if let Err(error) = reply {
            return Adding::Over(Err(error));
        }
        match step.waiting {
            Some(command) => Adding::Send(AddFile { command, waiting: None }),
            None => Adding::Over(Ok(())),
        }
    }

    /// The command that asks for the info of a file.
    pub fn get_file(&self, file_id: String) -> (command: Command)
        ensures
            command@ == get_file_command(self@, file_id@),
            command matches Command::HGet { key, field } && key@ == self.key_prefix@ + "::files"@
                && field == file_id,
    {
        Command::HGet { key: self.files(), field: file_id }
    }

    /// The command that asks for the ids of the latest public files.
    pub fn get_uploads(&self) -> (command: Command)
        ensures
            command@ == get_uploads_command(self@),
            command matches Command::LRange { key, start, stop } && key@ == self.key_prefix@
                + "::publicfiles"@ && start == 0 && stop == 20,
    {
        Command::LRange { key: self.public_files(), start: 0, stop: LAST_LISTED }
    }

    /// The commands that ask for the info of each of the ids that `get_uploads` was answered
    /// with, in that order, or the error that it was answered with.
    pub fn get_files(&self, public_ids: Result<Vec<String>, RedisError>) -> (commands: Result<
        Vec<Command>,
        RedisError,
    >)
        ensures
            match public_ids {
                Ok(ids) => commands is Ok && commands->Ok_0.deep_view()
                    == ids.deep_view().map_values(|id: Seq<char>| get_file_command(self@, id)),
                Err(error) => commands == Err::<Vec<Command>, _>(error),
            },
            public_ids matches Ok(ids) ==> {
                &&& commands->Ok_0@.len() == ids@.len()
                &&& forall|i: int|
                    0 <= i < ids@.len() ==> ((#[trigger] commands->Ok_0@[i]) matches Command::HGet {
                        key,
                        field,
                    } && key@ == self.key_prefix@ + "::files"@ && field@ == ids@[i]@)
            },
    {
        let public_ids = match public_ids {
            Ok(public_ids) => public_ids,
            Err(error) => return Err(error),
        };
        let mut commands: Vec<Command> = Vec::new();
        for i in 0..public_ids.len()
            invariant
                commands@.len() == i,
                forall|k: int|
                    0 <= k < i ==> (#[trigger] commands@[k])@ == get_file_command(
                        self@,
                        public_ids@[k]@,
                    ),
                forall|k: int|
                    0 <= k < i ==> ((#[trigger] commands@[k]) matches Command::HGet { key, field }
                        && key@ == self.key_prefix@ + "::files"@ && field@ == public_ids@[k]@),
        {
            commands.push(self.get_file(public_ids[i].clone()));
        }
        Ok(commands)
    }

    /// The listing that the replies to `get_files` make: every id has its info.
    pub fn listing(found: Vec<Option<FileInfo>>) -> (uploads: Vec<FileInfo>)
        requires
            forall|i: int| 0 <= i < found@.len() ==> (#[trigger] found@[i]) is Some,
        ensures
            uploads@.len() == found@.len(),
            forall|i: int| 0 <= i < found@.len() ==> Some(#[trigger] uploads@[i]) == found@[i],
    {
        let mut uploads: Vec<FileInfo> = Vec::new();
        for file in iter: found
            invariant
                iter.seq() == found@,
                forall|i: int| 0 <= i < found@.len() ==> (#[trigger] found@[i]) is Some,
                uploads@.len() == iter.index(),
                forall|i: int| 0 <= i < iter.index() ==> Some(#[trigger] uploads@[i]) == found@[i],
        {
            match file {
                Some(file) => uploads.push(file),
                None => {},
            }
        }
        uploads
    }

    /// The command that counts all files.
    pub fn get_uploads_count(&self) -> (command: Command)
        ensures
            command@ == (CommandView::HLen { key: files_key(self@) }),
            command matches Command::HLen { key } && key@ == self.key_prefix@ + "::files"@,
    {
        Command::HLen { key: self.files() }
    }

    /// The command that counts the public files.
    pub fn get_public_uploads_count(&self) -> (command: Command)
        ensures
            command@ == (CommandView::LLen { key: public_files_key(self@) }),
            command matches Command::LLen { key } && key@ == self.key_prefix@ + "::publicfiles"@,
    {
        Command::LLen { key: self.public_files() }
    }
}

/// A file is written to the place that it is looked for in, with the info that came with it,
/// and its id goes to the list that the listing is read from when it is public, and nowhere
/// else when it is not.
pub proof fn law_files_are_looked_for_where_they_are_put(
    prefix: Seq<char>,
    file_id: Seq<char>,
    file: FileInfoView,
    public: bool,
)
    ensures
        ({
            let commands = add_file_commands(prefix, file_id, file, public);
            let place = prefix + "::files"@;
            let list = prefix + "::publicfiles"@;
            &&& commands.len() == if public {
                2int
            } else {
                1
            }
            &&& commands[0] == CommandView::HSet { key: place, field: file_id, value: file }
            &&& public ==> commands[1] == CommandView::LPush { key: list, item: file_id }
            &&& get_file_command(prefix, file_id) == CommandView::HGet {
                key: place,
                field: file_id,
            }
            &&& get_uploads_command(prefix) == CommandView::LRange { key: list, start: 0, stop: 20 }
        }),
{
}

} // verus!
