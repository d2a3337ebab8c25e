use vstd::map::*;
use vstd::prelude::*;

verus! {

/// One registered callback, an external collaborator of the routing core:
/// it receives the payload of its command, as the payload's JSON text, and
/// performs a side-effecting action.  Implementations live outside this
/// library; nothing is assumed of what `call` returns.
pub trait CommandHandler {
    /// Run the command carried by `payload`; report success, or a
    /// descriptive cause of failure.
    fn call(&self, payload: &str) -> Result<(), String>;
}

/// Why a dispatch did not succeed.
#[derive(Clone, Debug, PartialEq, Eq)]
pub enum DispatchError {
    /// No handler is registered for the decoded command type.
    UnknownCommand,
    /// The handler for `command_type` ran and reported failure with `cause`.
    HandlerFailed { command_type: String, cause: String },
}

/// The routing table: at most one handler per command type.  Built during
/// setup, read-only while a session runs.
pub struct CommandRouter<H> {
    entries: Vec<(String, H)>,
}

impl<H> CommandRouter<H> {
    /// The handler that a registration history binds to `t`: the most
    /// recently registered one, if any.
    pub open spec fn lookup_seq(entries: Seq<(String, H)>, t: Seq<char>) -> Option<H>
        decreases entries.len(),
    {
        if entries.len() == 0 {
            None
        } else if entries.last().0@ == t {
            Some(entries.last().1)
        } else {
            Self::lookup_seq(entries.drop_last(), t)
        }
    }

    /// An empty table.
    pub fn new() -> (r: Self)
        ensures
            r@ == Map::<Seq<char>, H>::empty(),
    {
        let r = CommandRouter { entries: Vec::new() };
        proof {
            assert(r@ =~= Map::<Seq<char>, H>::empty());
        }
        r
    }

    /// Bind `handler` to `command_type`.  Always succeeds; a prior binding
    /// for the same type is superseded (last write wins).
    pub fn register(&mut self, command_type: &str, handler: H)
        ensures
            final(self)@ == old(self)@.insert(command_type@, handler),
    {
        let key: String = command_type.to_owned();
        self.entries.push((key, handler));
        proof {
            let s = old(self).entries@;
            let p = self.entries@;
            assert(p.drop_last() =~= s);
            assert(p.last() == self.entries@[s.len() as int]);
            assert_maps_equal!(self@, old(self)@.insert(command_type@, handler), t => {
                if t == command_type@ {
                } else {
                    assert(Self::lookup_seq(p, t) == Self::lookup_seq(s, t));
                }
            });
        }
    }

    /// The handler registered for `command_type`, if any.
    pub fn lookup(&self, command_type: &str) -> (r: Option<&H>)
        ensures
            match r {
                Some(h) => self@.contains_key(command_type@) && *h == self@[command_type@],
                None => !self@.contains_key(command_type@),
            },
    {
        let key: String = command_type.to_owned();
        let n: usize = self.entries.len();
        let mut found: Option<usize> = None;
        for i in 0..n
            invariant
                n == self.entries.len(),
                key@ == command_type@,
                match found {
                    Some(j) => j < i && Self::lookup_seq(self.entries@.take(i as int), key@)
                        == Some(self.entries@[j as int].1),
                    None => Self::lookup_seq(self.entries@.take(i as int), key@) is None,
                },
        {
            proof {
                let pre = self.entries@.take(i as int);
                let post = self.entries@.take(i as int + 1);
                assert(post.drop_last() =~= pre);
                assert(post.last() == self.entries@[i as int]);
            }
            if self.entries[i].0 == key {
                found = Some(i);
            }
        }
        proof {
            assert(self.entries@.take(n as int) =~= self.entries@);
        }
        match found {
            Some(j) => Some(&self.entries[j].1),
            None => None,
        }
    }
}

impl<H> View for CommandRouter<H> {
    type V = Map<Seq<char>, H>;

    /// The table as a mapping from command type to its current handler.
    closed spec fn view(&self) -> Map<Seq<char>, H> {
        Map::new(
            |t: Seq<char>| Self::lookup_seq(self.entries@, t) is Some,
            |t: Seq<char>| Self::lookup_seq(self.entries@, t)->Some_0,
        )
    }
}

/// What a dispatch returns for each outcome of the handler it invoked:
/// success as such, and failure as `HandlerFailed` carrying the command type
/// and the handler's own cause.
pub fn dispatch_outcome(command_type: &str, handler_result: Result<(), String>) -> (r: Result<
    (),
    DispatchError,
>)
    ensures
        handler_result is Ok <==> r is Ok,
        r matches Err(e) ==> e matches DispatchError::HandlerFailed { command_type: t, cause: c }
            && t@ == command_type@ && handler_result == Err::<(), String>(c),
{
    match handler_result {
        Ok(()) => Ok(()),
        Err(cause) => Err(
            DispatchError::HandlerFailed { command_type: command_type.to_owned(), cause },
        ),
    }
}

impl<H: CommandHandler> CommandRouter<H> {
    /// Look the command type up and, where a handler is bound to it, invoke
    /// that handler synchronously with the payload.  Fails with
    /// `UnknownCommand`, and only then, where no handler is bound; a failure
    /// the handler reports comes back as `HandlerFailed` and is never
    /// propagated as a panic.  The table itself is never changed by a
    /// dispatch.
    pub fn handle(&self, command_type: &str, payload: &str) -> (r: Result<(), DispatchError>)
        ensures
            r == Err::<(), DispatchError>(DispatchError::UnknownCommand) <==> !self@.contains_key(
                command_type@,
            ),
            r matches Err(DispatchError::HandlerFailed { command_type: t, cause: c })
                ==> (t@ == command_type@ && self@.contains_key(command_type@)),
    {
        match self.lookup(command_type) {
            None => Err(DispatchError::UnknownCommand),
            Some(h) => {
                let hr = h.call(payload);
                dispatch_outcome(command_type, hr)
            },
        }
    }
}

/// Last write wins: a table that saw two registrations for the same type is
/// the table that saw only the later one.
pub proof fn lemma_register_last_write_wins<H>(
    m: Map<Seq<char>, H>,
    t: Seq<char>,
    h1: H,
    h2: H,
)
    ensures
        m.insert(t, h1).insert(t, h2) == m.insert(t, h2),
{
    assert_maps_equal!(m.insert(t, h1).insert(t, h2), m.insert(t, h2));
}

} // verus!
