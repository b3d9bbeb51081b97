use crate::boundary::error::Error;
use crate::boundary::models::{Scope, Session, SessionWithTarget, Target};
use crate::text::{render_unsigned, same_text};
use vstd::prelude::*;
use vstd::string::*;

verus! {

/// The position of the first target with the id `id`, if there is one.
pub open spec fn target_position(targets: Seq<Target>, id: Seq<char>) -> Option<int> {
    if exists|i: int| 0 <= i < targets.len() && (#[trigger] targets[i]).id@ == id {
        Some(
            choose|i: int|
                0 <= i < targets.len() && (#[trigger] targets[i]).id@ == id && forall|j: int|
                    0 <= j < i ==> (#[trigger] targets[j]).id@ != id,
        )
    } else {
        None
    }
}

/// Whether `combined` pairs each of `sessions`, in order, with the first of
/// `targets` that it leads to, leaving out the sessions that lead to none
/// of them.
pub open spec fn pairs_sessions(
    sessions: Seq<Session>,
    targets: Seq<Target>,
    combined: Seq<SessionWithTarget>,
) -> bool
    decreases sessions.len(),
{
    if sessions.len() == 0 {
        combined.len() == 0
    } else {
        let last = sessions.last();
        match target_position(targets, last.target_id@) {
            Some(i) => {
                &&& combined.len() > 0
                &&& combined.last().session == last
                &&& combined.last().target@ == targets[i]@
                &&& pairs_sessions(sessions.drop_last(), targets, combined.drop_last())
            },
            None => pairs_sessions(sessions.drop_last(), targets, combined),
        }
    }
}

fn find_target(targets: &Vec<Target>, id: &str) -> (found: Option<usize>)
    ensures
        match found {
            Some(i) => i < targets@.len() && target_position(targets@, id@) == Some(i as int),
            None => target_position(targets@, id@) is None,
        },
{
    let mut i: usize = 0;
    while i < targets.len()
        invariant
            i <= targets@.len(),
            forall|j: int| 0 <= j < i ==> (#[trigger] targets@[j]).id@ != id@,
        decreases targets@.len() - i,
    {
        if same_text(targets[i].id.as_str(), id) {
            proof {
                let chosen = target_position(targets@, id@)->Some_0;
                assert(targets@[i as int].id@ == id@);
                assert(chosen == i) by {
                    if chosen < i {
                        assert(targets@[chosen].id@ != id@);
                    } else if chosen > i {
                        assert(targets@[i as int].id@ != id@);
                    }
                }
            }
            return Some(i);
        }
        i += 1;
    }
    None
}

/// Pairs each session with the target it leads to. A session whose target is
/// not among `targets` is left out.
pub fn combine_sessions_with_target(sessions: Vec<Session>, targets: Vec<Target>) -> (combined:
    Vec<SessionWithTarget>)
    ensures
        pairs_sessions(sessions@, targets@, combined@),
{
    let mut sessions = sessions;
    let ghost all = sessions@;
    let mut combined: Vec<SessionWithTarget> = Vec::new();
    let mut rest: Vec<Session> = Vec::new();
    // take the sessions from the back, so that each is moved, not copied
    while sessions.len() > 0
        invariant
            all == sessions@ + rest@.reverse(),
        decreases sessions@.len(),
    {
        let ghost before = sessions@;
        let ghost taken = rest@;
        let s = sessions.pop().unwrap();
        rest.push(s);
        proof {
            assert(rest@.reverse() =~= seq![s] + taken.reverse());
            assert(before + taken.reverse() =~= sessions@ + rest@.reverse());
        }
    }
    proof {
        assert(all =~= rest@.reverse());
    }
    // `rest` now holds the sessions last to first; pair them first to last
    while rest.len() > 0
        invariant
            rest@.len() <= all.len(),
            rest@.reverse() == all.skip(all.len() - rest@.len()),
            pairs_sessions(all.take(all.len() - rest@.len()), targets@, combined@),
        decreases rest@.len(),
    {
        let ghost before = rest@;
        let ghost done = all.take(all.len() - before.len());
        let s = rest.pop().unwrap();
        proof {
            assert(before.reverse()[0] == s);
            assert(all[all.len() - before.len()] == s);
            assert(rest@.reverse() =~= all.skip(all.len() - rest@.len())) by {
                assert(rest@.reverse() =~= before.reverse().skip(1));
            }
            let next = all.take(all.len() - rest@.len());
            assert(next.drop_last() =~= done);
            assert(next.last() == s);
        }
        match find_target(&targets, s.target_id.as_str()) {
            Some(i) => {
                let ghost paired = combined@;
                let target = targets[i].clone();
                combined.push(SessionWithTarget::new(s, target));
                proof {
                    assert(combined@.drop_last() =~= paired);
                }
            },
            None => {},
        }
    }
    proof {
        assert(all.take(all.len() as int) =~= all);
    }
    combined
}

/// The scopes among `scopes` under which sessions may be listed, in their
/// order.
pub open spec fn listing_sessions(scopes: Seq<Scope>) -> Seq<Scope> {
    scopes.filter(|s: Scope| s@.may_list_sessions())
}

/// Keeps the scopes under which sessions may be listed.
pub fn scopes_listing_sessions(scopes: Vec<Scope>) -> (kept: Vec<Scope>)
    ensures
        kept@ == listing_sessions(scopes@),
{
    let mut scopes = scopes;
    let ghost all = scopes@;
    let ghost wanted = |s: Scope| s@.may_list_sessions();
    let mut reversed: Vec<Scope> = Vec::new();
    while scopes.len() > 0
        invariant
            scopes@ == all.take(scopes@.len() as int),
            scopes@.len() <= all.len(),
            wanted == |s: Scope| s@.may_list_sessions(),
            all.filter(wanted) == scopes@.filter(wanted) + reversed@.reverse(),
        decreases scopes@.len(),
    {
        let ghost before = scopes@;
        let ghost collected = reversed@;
        let last = scopes.pop().unwrap();
        proof {
            assert(scopes@ =~= all.take(scopes@.len() as int));
            assert(before =~= scopes@.push(last));
            Seq::lemma_filter_push(scopes@, last, wanted);
        }
        if last.can_list_sessions() {
            reversed.push(last);
            proof {
                assert(reversed@.reverse() =~= seq![last] + collected.reverse());
                assert(scopes@.filter(wanted).push(last) + collected.reverse() =~= scopes@.filter(
                    wanted,
                ) + reversed@.reverse());
            }
        }
    }
    proof {
        assert(scopes@ =~= Seq::<Scope>::empty());
        Seq::<Scope>::empty().lemma_filter_len(wanted);
        assert(scopes@.filter(wanted) =~= Seq::<Scope>::empty());
        assert(all.filter(wanted) =~= reversed@.reverse());
    }
    let mut kept: Vec<Scope> = Vec::new();
    while reversed.len() > 0
        invariant
            all.filter(wanted) == kept@ + reversed@.reverse(),
        decreases reversed@.len(),
    {
        let ghost rest = reversed@;
        let ghost done = kept@;
        let s = reversed.pop().unwrap();
        kept.push(s);
        proof {
            assert(rest.reverse() =~= seq![s] + reversed@.reverse());
            assert(done + rest.reverse() =~= kept@ + reversed@.reverse());
        }
    }
    proof {
        assert(reversed@.reverse() =~= Seq::<Scope>::empty());
        assert(all.filter(wanted) =~= kept@);
    }
    kept
}

/// The sessions among `sessions` that belong to the user `user_id`, in their
/// order.
pub open spec fn of_user(sessions: Seq<Session>, user_id: Seq<char>) -> Seq<Session> {
    sessions.filter(|s: Session| s.user_id@ == user_id)
}

/// The sessions of the user among the first `n` listings, in the order of
/// the listings. A failed listing adds nothing.
pub open spec fn gathered(
    listings: Seq<Result<Vec<Session>, Error>>,
    user_id: Seq<char>,
    n: nat,
) -> Seq<Session>
    decreases n,
{
    if n == 0 {
        Seq::empty()
    } else {
        gathered(listings, user_id, (n - 1) as nat) + match listings[n - 1] {
            Ok(sessions) => of_user(sessions@, user_id),
            Err(_) => Seq::empty(),
        }
    }
}

/// The error of the first failed listing, if any failed.
pub open spec fn first_failure(listings: Seq<Result<Vec<Session>, Error>>) -> Option<Error>
    decreases listings.len(),
{
    if listings.len() == 0 {
        None
    } else {
        match listings[0] {
            Err(e) => Some(e),
            Ok(_) => first_failure(listings.skip(1)),
        }
    }
}

fn sessions_of_user(sessions: Vec<Session>, user_id: &str) -> (kept: Vec<Session>)
    ensures
        kept@ == of_user(sessions@, user_id@),
{
    let mut sessions = sessions;
    let ghost all = sessions@;
    let ghost wanted = |s: Session| s.user_id@ == user_id@;
    let mut reversed: Vec<Session> = Vec::new();
    while sessions.len() > 0
        invariant
            sessions@ == all.take(sessions@.len() as int),
            sessions@.len() <= all.len(),
            wanted == |s: Session| s.user_id@ == user_id@,
            all.filter(wanted) == sessions@.filter(wanted) + reversed@.reverse(),
        decreases sessions@.len(),
    {
        let ghost before = sessions@;
        let ghost collected = reversed@;
        let last = sessions.pop().unwrap();
        proof {
            assert(sessions@ =~= all.take(sessions@.len() as int));
            assert(before =~= sessions@.push(last));
            Seq::lemma_filter_push(sessions@, last, wanted);
        }
        if same_text(last.user_id.as_str(), user_id) {
            reversed.push(last);
            proof {
                assert(reversed@.reverse() =~= seq![last] + collected.reverse());
                assert(sessions@.filter(wanted).push(last) + collected.reverse()
                    =~= sessions@.filter(wanted) + reversed@.reverse());
            }
        }
    }
    proof {
        assert(sessions@ =~= Seq::<Session>::empty());
        Seq::<Session>::empty().lemma_filter_len(wanted);
        assert(sessions@.filter(wanted) =~= Seq::<Session>::empty());
        assert(all.filter(wanted) =~= reversed@.reverse());
    }
    let mut kept: Vec<Session> = Vec::new();
    while reversed.len() > 0
        invariant
            all.filter(wanted) == kept@ + reversed@.reverse(),
        decreases reversed@.len(),
    {
        let ghost rest = reversed@;
        let ghost done = kept@;
        let s = reversed.pop().unwrap();
        kept.push(s);
        proof {
            assert(rest.reverse() =~= seq![s] + reversed@.reverse());
            assert(done + rest.reverse() =~= kept@ + reversed@.reverse());
        }
    }
    proof {
        assert(reversed@.reverse() =~= Seq::<Session>::empty());
        assert(all.filter(wanted) =~= kept@);
    }
    kept
}

/// Gathers the sessions of one user from the listings of several scopes.
/// The first listing that failed fails the whole; else the user's sessions
/// come out in the order of the listings.
pub fn collect_user_sessions(listings: Vec<Result<Vec<Session>, Error>>, user_id: &str) -> (r:
    Result<Vec<Session>, Error>)
    ensures
        match first_failure(listings@) {
            Some(e) => r == Err::<Vec<Session>, Error>(e),
            None => r matches Ok(sessions) && sessions@ == gathered(
                listings@,
                user_id@,
                listings@.len(),
            ),
        },
{
    let ghost all = listings@;
    let mut remaining = listings;
    let mut rest: Vec<Result<Vec<Session>, Error>> = Vec::new();
    while remaining.len() > 0
        invariant
            all == remaining@ + rest@.reverse(),
        decreases remaining@.len(),
    {
        let ghost before = remaining@;
        let ghost taken = rest@;
        let l = remaining.pop().unwrap();
        rest.push(l);
        proof {
            assert(rest@.reverse() =~= seq![l] + taken.reverse());
            assert(before + taken.reverse() =~= remaining@ + rest@.reverse());
        }
    }
    proof {
        assert(all =~= rest@.reverse());
        assert(all.skip(0) =~= all);
    }
    let mut sessions: Vec<Session> = Vec::new();
    while rest.len() > 0
        invariant
            all == listings@,
            rest@.len() <= all.len(),
            rest@.reverse() == all.skip(all.len() - rest@.len()),
            first_failure(all) == first_failure(all.skip(all.len() - rest@.len())),
            sessions@ == gathered(all, user_id@, (all.len() - rest@.len()) as nat),
        decreases rest@.len(),
    {
        let ghost before = rest@;
        let ghost at = all.len() - before.len();
        let listing = rest.pop().unwrap();
        proof {
            assert(before.reverse()[0] == listing);
            assert(all[at] == listing);
            assert(rest@.reverse() =~= all.skip(all.len() - rest@.len())) by {
                assert(rest@.reverse() =~= before.reverse().skip(1));
            }
            assert(all.skip(at)[0] == listing);
            assert(all.skip(at).skip(1) =~= all.skip(at + 1));
        }
        match listing {
            Ok(session_list) => {
                let mut kept = sessions_of_user(session_list, user_id);
                sessions.append(&mut kept);
            },
            Err(e) => {
                assert(first_failure(all.skip(at)) == Some(e));
                return Err(e);
            },
        }
    }
    proof {
        assert(all.skip(all.len() as int) =~= Seq::<Result<Vec<Session>, Error>>::empty());
    }
    Ok(sessions)
}

/// What to make of a command's end.
pub enum OutputReading {
    /// The command succeeded: its output holds the answer.
    Answer,
    /// The remote side refused: the error output holds its refusal.
    Refusal,
    /// The command failed in another way.
    Failed(Error),
}

/// Reads the end of a command: exit code 0 stands for an answer, 1 for a
/// refusal of the remote side, and no code or any other code for a failure
/// of the command, which is reported with what it wrote to its error
/// output.
pub fn read_exit(code: Option<i32>, error_output: String) -> (reading: OutputReading)
    ensures
        reading == match code {
            Some(0) => OutputReading::Answer,
            Some(1) => OutputReading::Refusal,
            _ => OutputReading::Failed(Error::CliError(code, error_output)),
        },
{
    match code {
        None => OutputReading::Failed(Error::CliError(None, error_output)),
        Some(0) => OutputReading::Answer,
        Some(1) => OutputReading::Refusal,
        Some(c) => OutputReading::Failed(Error::CliError(Some(c), error_output)),
    }
}

/// The first line that a connect command wrote, or the failure to report
/// where it wrote none.
pub fn first_response(line: Option<String>) -> (r: Result<String, Error>)
    ensures
        match line {
            Some(text) => r == Ok::<String, Error>(text),
            None => r matches Err(Error::CliError(None, reason)) && reason@
                == "No response from boundary"@,
        },
{
    match line {
        Some(text) => Ok(text),
        None => Err(Error::CliError(None, "No response from boundary".to_owned())),
    }
}

/// Runs commands as they are.
#[derive(Copy, Clone)]
pub struct DefaultCommandRunner;

/// The client that talks to the remote side through its command-line tool.
#[derive(Clone)]
pub struct CliClient<R> {
    bin_path: String,
    command_runner: R,
}

/// The arguments that list scopes.
pub open spec fn scopes_arguments(parent: Option<Seq<char>>, recursive: bool) -> Seq<Seq<char>> {
    seq!["scopes"@, "list"@, "-format"@, "json"@] + match parent {
        Some(p) => seq!["-scope-id"@, p],
        None => Seq::empty(),
    } + if recursive {
        seq!["-recursive"@]
    } else {
        Seq::empty()
    }
}

/// The arguments that list targets.
pub open spec fn targets_arguments(scope: Option<Seq<char>>) -> Seq<Seq<char>> {
    seq!["targets"@, "list"@, "-format"@, "json"@] + match scope {
        Some(s) => seq!["-scope-id"@, s],
        None => Seq::empty(),
    }
}

fn push_text(arguments: &mut Vec<String>, text: &str)
    ensures
        crate::boundary::models::texts(final(arguments)@) == crate::boundary::models::texts(
            old(arguments)@,
        ).push(text@),
{
    arguments.push(String::from_str(text));
    assert(crate::boundary::models::texts(arguments@) =~= crate::boundary::models::texts(
        old(arguments)@,
    ).push(text@));
}

impl CliClient<DefaultCommandRunner> {
    /// The client that runs the tool found under the name `boundary`.
    pub fn default_client() -> (client: Self)
        ensures
            client.tool() == "boundary"@,
    {
        Self { bin_path: "boundary".to_owned(), command_runner: DefaultCommandRunner }
    }
}

impl<R> CliClient<R> {
    /// The path of the tool.
    pub closed spec fn tool(&self) -> Seq<char> {
        self.bin_path@
    }

    /// A client that runs the tool at `bin_path` with `command_runner`.
    pub fn new(bin_path: String, command_runner: R) -> (client: Self)
        ensures
            client.tool() == bin_path@,
            client.runner() == command_runner,
    {
        Self { bin_path, command_runner }
    }

    /// The path of the tool.
    pub fn bin_path(&self) -> (path: &str)
        ensures
            path@ == self.tool(),
    {
        self.bin_path.as_str()
    }

    /// What runs the commands.
    pub closed spec fn runner(&self) -> R {
        self.command_runner
    }

    /// What runs the commands.
    pub fn command_runner(&self) -> (runner: &R)
        ensures
            *runner == self.runner(),
    {
        &self.command_runner
    }

    /// The arguments that list the scopes under `parent`, or the top scopes;
    /// with `recursive`, the scopes below them too.
    pub fn scopes_command(parent: Option<&str>, recursive: bool) -> (arguments: Vec<String>)
        ensures
            crate::boundary::models::texts(arguments@) == scopes_arguments(
                match parent {
                    Some(p) => Some(p@),
                    None => None,
                },
                recursive,
            ),
    {
        let mut arguments: Vec<String> = Vec::new();
        assert(crate::boundary::models::texts(arguments@) =~= Seq::<Seq<char>>::empty());
        push_text(&mut arguments, "scopes");
        push_text(&mut arguments, "list");
        push_text(&mut arguments, "-format");
        push_text(&mut arguments, "json");
        match parent {
            Some(p) => {
                push_text(&mut arguments, "-scope-id");
                push_text(&mut arguments, p);
            },
            None => {},
        }
        if recursive {
            push_text(&mut arguments, "-recursive");
        }
        assert(crate::boundary::models::texts(arguments@) =~= scopes_arguments(
            match parent {
                Some(p) => Some(p@),
                None => None,
            },
            recursive,
        ));
        arguments
    }

    /// The arguments that list the targets of `scope`, or all targets.
    pub fn targets_command(scope: Option<&str>) -> (arguments: Vec<String>)
        ensures
            crate::boundary::models::texts(arguments@) == targets_arguments(
                match scope {
                    Some(s) => Some(s@),
                    None => None,
                },
            ),
    {
        let mut arguments: Vec<String> = Vec::new();
        assert(crate::boundary::models::texts(arguments@) =~= Seq::<Seq<char>>::empty());
        push_text(&mut arguments, "targets");
        push_text(&mut arguments, "list");
        push_text(&mut arguments, "-format");
        push_text(&mut arguments, "json");
        match scope {
            Some(s) => {
                push_text(&mut arguments, "-scope-id");
                push_text(&mut arguments, s);
            },
            None => {},
        }
        assert(crate::boundary::models::texts(arguments@) =~= targets_arguments(
            match scope {
                Some(s) => Some(s@),
                None => None,
            },
        ));
        arguments
    }

    /// The arguments that list the sessions of `scope`.
    pub fn sessions_command(scope: &str) -> (arguments: Vec<String>)
        ensures
            crate::boundary::models::texts(arguments@) == seq![
                "sessions"@,
                "list"@,
                "-scope-id"@,
                scope@,
                "-format"@,
                "json"@,
            ],
    {
        let mut arguments: Vec<String> = Vec::new();
        assert(crate::boundary::models::texts(arguments@) =~= Seq::<Seq<char>>::empty());
        push_text(&mut arguments, "sessions");
        push_text(&mut arguments, "list");
        push_text(&mut arguments, "-scope-id");
        push_text(&mut arguments, scope);
        push_text(&mut arguments, "-format");
        push_text(&mut arguments, "json");
        assert(crate::boundary::models::texts(arguments@) =~= seq![
            "sessions"@,
            "list"@,
            "-scope-id"@,
            scope@,
            "-format"@,
            "json"@,
        ]);
        arguments
    }

    /// The arguments that open a session to `target_id`, listening on `port`.
    pub fn connect_command(target_id: &str, port: u16) -> (arguments: Vec<String>)
        ensures
            crate::boundary::models::texts(arguments@) == seq![
                "connect"@,
                "-target-id"@,
                target_id@,
                "-listen-port"@,
                crate::text::decimal(port as nat),
                "-format"@,
                "json"@,
            ],
    {
        let mut arguments: Vec<String> = Vec::new();
        assert(crate::boundary::models::texts(arguments@) =~= Seq::<Seq<char>>::empty());
        let port_text = render_unsigned(port as u64);
        push_text(&mut arguments, "connect");
        push_text(&mut arguments, "-target-id");
        push_text(&mut arguments, target_id);
        push_text(&mut arguments, "-listen-port");
        push_text(&mut arguments, port_text.as_str());
        push_text(&mut arguments, "-format");
        push_text(&mut arguments, "json");
        assert(crate::boundary::models::texts(arguments@) =~= seq![
            "connect"@,
            "-target-id"@,
            target_id@,
            "-listen-port"@,
            crate::text::decimal(port as nat),
            "-format"@,
            "json"@,
        ]);
        arguments
    }

    /// The arguments that cancel the session `session_id`.
    pub fn cancel_session_command(session_id: &str) -> (arguments: Vec<String>)
        ensures
            crate::boundary::models::texts(arguments@) == seq![
                "sessions"@,
                "cancel"@,
                "-id"@,
                session_id@,
                "-format"@,
                "json"@,
            ],
    {
        let mut arguments: Vec<String> = Vec::new();
        assert(crate::boundary::models::texts(arguments@) =~= Seq::<Seq<char>>::empty());
        push_text(&mut arguments, "sessions");
        push_text(&mut arguments, "cancel");
        push_text(&mut arguments, "-id");
        push_text(&mut arguments, session_id);
        push_text(&mut arguments, "-format");
        push_text(&mut arguments, "json");
        assert(crate::boundary::models::texts(arguments@) =~= seq![
            "sessions"@,
            "cancel"@,
            "-id"@,
            session_id@,
            "-format"@,
            "json"@,
        ]);
        arguments
    }

    /// The arguments that authenticate.
    pub fn authenticate_command() -> (arguments: Vec<String>)
        ensures
            crate::boundary::models::texts(arguments@) == seq![
                "authenticate"@,
                "-format"@,
                "json"@,
            ],
    {
        let mut arguments: Vec<String> = Vec::new();
        assert(crate::boundary::models::texts(arguments@) =~= Seq::<Seq<char>>::empty());
        push_text(&mut arguments, "authenticate");
        push_text(&mut arguments, "-format");
        push_text(&mut arguments, "json");
        assert(crate::boundary::models::texts(arguments@) =~= seq![
            "authenticate"@,
            "-format"@,
            "json"@,
        ]);
        arguments
    }
}

} // verus!
