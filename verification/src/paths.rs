//! Project-scoped daemon paths.

use vstd::prelude::*;
use vstd::string::*;

use crate::text::{same_text, texts};

verus! {

/// A file or directory, given by a directory and the segments to follow from
/// it.
#[derive(Clone, Debug, PartialEq, Eq)]
pub struct Location {
    /// The directory to start from, as the platform writes it.
    pub base: String,
    /// The names to follow from there, outermost first.
    pub segments: Vec<String>,
}

impl Location {
    /// Whether this is the location reached from a directory by segments.
    pub open spec fn is_at(&self, base: Seq<char>, segments: Seq<Seq<char>>) -> bool {
        self.base@ == base && texts(self.segments@) == segments
    }

    /// A directory itself.
    pub fn at(base: &str) -> (r: Location)
        ensures
            r.is_at(base@, Seq::empty()),
    {
        let segments: Vec<String> = Vec::new();
        assert(texts(segments@) =~= Seq::<Seq<char>>::empty());
        Location { base: base.to_owned(), segments }
    }

    /// One segment further.
    pub fn join(self, segment: &str) -> (r: Location)
        ensures
            r.base == self.base,
            texts(r.segments@) == texts(self.segments@).push(segment@),
    {
        let mut r = self;
        let name = segment.to_owned();
        assert(texts(r.segments@.push(name)) =~= texts(r.segments@).push(segment@));
        r.segments.push(name);
        r
    }
}

/// Scope of a daemon: a project (git root) or the user-level fallback.
#[derive(Clone, Debug, PartialEq, Eq)]
pub enum Scope {
    Project(String),
    User,
}

/// The directory that a scope keeps its files under: `.agentmesh` in the
/// project, else the data directory of the user.
pub open spec fn scope_dir(scope: Scope, user_data_dir: Seq<char>) -> (Seq<char>, Seq<Seq<char>>) {
    match scope {
        Scope::Project(root) => (root@, seq![".agentmesh"@]),
        Scope::User => (user_data_dir, Seq::empty()),
    }
}

impl Scope {
    /// The scope of a directory: its project when it lies in one, else the
    /// user.
    pub fn resolve(project_root: Option<String>) -> (r: Scope)
        ensures
            match project_root {
                Some(root) => r == Scope::Project(root),
                None => r == Scope::User,
            },
    {
        match project_root {
            Some(root) => Scope::Project(root),
            None => Scope::User,
        }
    }

    fn dir(&self, user_data_dir: &str) -> (r: Location)
        ensures
            r.is_at(scope_dir(*self, user_data_dir@).0, scope_dir(*self, user_data_dir@).1),
    {
        match self {
            Scope::Project(root) => {
                let r = Location::at(root.as_str()).join(".agentmesh");
                assert(texts(r.segments@) =~= seq![".agentmesh"@]);
                r
            },
            Scope::User => Location::at(user_data_dir),
        }
    }

    /// Runtime directory holding daemon metadata.
    pub fn runtime_dir(&self, user_data_dir: &str) -> (r: Location)
        ensures
            r.is_at(
                scope_dir(*self, user_data_dir@).0,
                scope_dir(*self, user_data_dir@).1.push("runtime"@),
            ),
    {
        self.dir(user_data_dir).join("runtime")
    }

    /// Human-readable scope label.
    pub fn label(&self, user_data_dir: &str) -> (r: String)
        ensures
            r@ == scope_dir(*self, user_data_dir@).0,
    {
        match self {
            Scope::Project(root) => root.clone(),
            Scope::User => user_data_dir.to_owned(),
        }
    }

    /// Directory used to locate the project database (for diagnostics).
    pub fn project_root(&self) -> (r: Option<&String>)
        ensures
            match *self {
                Scope::Project(root) => r == Some(&root),
                Scope::User => r is None,
            },
    {
        match self {
            Scope::Project(root) => Some(root),
            Scope::User => None,
        }
    }
}

/// The location of a file in the runtime directory of a scope.
pub open spec fn runtime_file(scope: Scope, user_data_dir: Seq<char>, name: Seq<char>) -> (
    Seq<char>,
    Seq<Seq<char>>,
) {
    (
        scope_dir(scope, user_data_dir).0,
        scope_dir(scope, user_data_dir).1.push("runtime"@).push(name),
    )
}

/// The lock file of the daemon.
pub fn daemon_lock_path(scope: &Scope, user_data_dir: &str) -> (r: Location)
    ensures
        r.is_at(
            runtime_file(*scope, user_data_dir@, "daemon.lock"@).0,
            runtime_file(*scope, user_data_dir@, "daemon.lock"@).1,
        ),
{
    scope.runtime_dir(user_data_dir).join("daemon.lock")
}

/// The metadata file of the daemon.
pub fn daemon_json_path(scope: &Scope, user_data_dir: &str) -> (r: Location)
    ensures
        r.is_at(
            runtime_file(*scope, user_data_dir@, "daemon.json"@).0,
            runtime_file(*scope, user_data_dir@, "daemon.json"@).1,
        ),
{
    scope.runtime_dir(user_data_dir).join("daemon.json")
}

/// The bearer token file of the daemon.
pub fn daemon_token_path(scope: &Scope, user_data_dir: &str) -> (r: Location)
    ensures
        r.is_at(
            runtime_file(*scope, user_data_dir@, "daemon.token"@).0,
            runtime_file(*scope, user_data_dir@, "daemon.token"@).1,
        ),
{
    scope.runtime_dir(user_data_dir).join("daemon.token")
}

/// The bearer token file of the A2A listeners.
pub fn a2a_token_path(scope: &Scope, user_data_dir: &str) -> (r: Location)
    ensures
        r.is_at(
            runtime_file(*scope, user_data_dir@, "a2a.token"@).0,
            runtime_file(*scope, user_data_dir@, "a2a.token"@).1,
        ),
{
    scope.runtime_dir(user_data_dir).join("a2a.token")
}

/// The log file of the daemon.
pub fn daemon_log_path(scope: &Scope, user_data_dir: &str) -> (r: Location)
    ensures
        r.is_at(
            scope_dir(*scope, user_data_dir@).0,
            scope_dir(*scope, user_data_dir@).1.push("logs"@).push("daemon.log"@),
        ),
{
    scope.dir(user_data_dir).join("logs").join("daemon.log")
}

/// The project database of a scope; the user-level database is the storage
/// layer's own.
pub fn project_database_path(scope: &Scope) -> (r: Option<Location>)
    ensures
        match (*scope, r) {
            (Scope::Project(root), Some(l)) => l.is_at(
                root@,
                seq![".agentmesh"@, "agentmesh.db"@],
            ),
            (Scope::User, None) => true,
            _ => false,
        },
{
    match scope {
        Scope::Project(root) => {
            let l = Location::at(root.as_str()).join(".agentmesh").join("agentmesh.db");
            assert(texts(l.segments@) =~= seq![".agentmesh"@, "agentmesh.db"@]);
            Some(l)
        },
        Scope::User => None,
    }
}

/// Why a `--scope` argument names no scope.
#[derive(Clone, Debug, PartialEq, Eq)]
pub enum ScopeError {
    /// The directory does not exist.
    NoSuchDirectory(String),
}

impl ScopeError {
    /// The message shown to the user.
    pub fn message(&self) -> (r: String)
        ensures
            match *self {
                ScopeError::NoSuchDirectory(path) => r@ == "scope directory does not exist: "@
                    + path@,
            },
    {
        match self {
            ScopeError::NoSuchDirectory(path) => {
                "scope directory does not exist: ".to_owned().concat(path.as_str())
            },
        }
    }
}

/// Whether an outcome is the one that a `--scope` argument resolves to.
pub open spec fn resolves(arg: Seq<char>, is_dir: bool, r: Result<Scope, ScopeError>) -> bool {
    if arg == "user"@ {
        r == Ok::<Scope, ScopeError>(Scope::User)
    } else if is_dir {
        r matches Ok(Scope::Project(root)) && root@ == arg
    } else {
        r matches Err(ScopeError::NoSuchDirectory(path)) && path@ == arg
    }
}

/// A daemon process serves the scope it was started for: what a scope is
/// handed over as resolves to the same scope, where its directory exists. A
/// relative directory of the name `user` stands for the user scope.
pub proof fn scope_arg_round_trip(scope: Scope, is_dir: bool, r: Result<Scope, ScopeError>)
    requires
        scope is Project ==> is_dir && scope_arg_text(scope) != "user"@,
        resolves(scope_arg_text(scope), is_dir, r),
    ensures
        r matches Ok(back) && (back is User <==> scope is User) && scope_arg_text(back)
            == scope_arg_text(scope),
{
}

/// Resolve a `--scope` argument into a scope: the word `user`, or a
/// directory that exists.
pub fn parse_scope_arg(arg: &str, is_dir: bool) -> (r: Result<Scope, ScopeError>)
    ensures
        resolves(arg@, is_dir, r),
{
    if same_text(arg, "user") {
        Ok(Scope::User)
    } else if is_dir {
        Ok(Scope::Project(arg.to_owned()))
    } else {
        Err(ScopeError::NoSuchDirectory(arg.to_owned()))
    }
}

/// The `--scope` argument that names a scope to a daemon process.
pub fn scope_arg(scope: &Scope) -> (r: String)
    ensures
        r@ == scope_arg_text(*scope),
{
    match scope {
        Scope::Project(root) => root.clone(),
        Scope::User => "user".to_owned(),
    }
}

/// The text under which a scope is handed to a daemon process.
pub open spec fn scope_arg_text(scope: Scope) -> Seq<char> {
    match scope {
        Scope::Project(root) => root@,
        Scope::User => "user"@,
    }
}

/// The files of a project stand in its own `.agentmesh` directory and those of
/// the user in the user's, each runtime file under `runtime` by its name.
pub proof fn scopes_keep_their_files_apart(root: String, user_dir: Seq<char>, name: Seq<char>)
    ensures
        scope_dir(Scope::Project(root), user_dir).0 == root@,
        scope_dir(Scope::Project(root), user_dir).1 == seq![".agentmesh"@],
        scope_dir(Scope::User, user_dir).0 == user_dir,
        scope_dir(Scope::User, user_dir).1.len() == 0,
        runtime_file(Scope::Project(root), user_dir, name).0 == root@,
        runtime_file(Scope::Project(root), user_dir, name).1 == seq![
            ".agentmesh"@,
            "runtime"@,
            name,
        ],
        runtime_file(Scope::User, user_dir, name).0 == user_dir,
        runtime_file(Scope::User, user_dir, name).1 == seq!["runtime"@, name],
{
    assert(runtime_file(Scope::Project(root), user_dir, name).1 =~= seq![
        ".agentmesh"@,
        "runtime"@,
        name,
    ]);
    assert(runtime_file(Scope::User, user_dir, name).1 =~= seq!["runtime"@, name]);
}

/// A scope argument names the user scope exactly when it says `user`, and else
/// the project of an existing directory; anything else is refused.
pub proof fn scope_arguments_are_resolved(
    arg: Seq<char>,
    is_dir: bool,
    r: Result<Scope, ScopeError>,
)
    requires
        resolves(arg, is_dir, r),
    ensures
        r == Ok::<Scope, ScopeError>(Scope::User) <==> arg == "user"@,
        (r matches Ok(Scope::Project(root)) && root@ == arg) <==> arg != "user"@ && is_dir,
        r is Err <==> arg != "user"@ && !is_dir,
{
}

} // verus!
