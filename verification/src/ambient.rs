use vstd::prelude::*;
use vstd::string::StrSliceExecFns;
use vstd::string::StringExecFns;
use crate::text::push_char;

verus! {

/// One environment variable of the ambient store.
struct EnvVar {
    name: String,
    value: String,
}

/// The environment a variable list denotes; a later entry for the same name
/// shadows an earlier one.
spec fn vars_map(vars: Seq<EnvVar>) -> Map<Seq<char>, Seq<char>>
    decreases vars.len(),
{
    if vars.len() == 0 {
        Map::<Seq<char>, Seq<char>>::empty()
    } else {
        vars_map(vars.drop_last()).insert(vars.last().name@, vars.last().value@)
    }
}

/// A guard recording the working directory that was current before a
/// directory acquire; releasing it restores exactly that directory.
pub struct PushdGuard {
    prev_dir: String,
}

/// A guard recording whether a variable was previously absent or present
/// with some value; releasing it restores exactly that state.
pub struct PushenvGuard {
    name: String,
    prev: Option<String>,
}

impl PushdGuard {
    /// The recorded previous working directory.
    pub closed spec fn prev_view(&self) -> Seq<char> {
        self.prev_dir@
    }

    /// Record a previous working directory.
    pub fn record(prev_dir: String) -> (g: PushdGuard)
        ensures
            g.prev_view() == prev_dir@,
    {
        PushdGuard { prev_dir }
    }

    /// The directory a release must restore.
    pub fn previous_directory(&self) -> (d: &String)
        ensures
            d@ == self.prev_view(),
    {
        &self.prev_dir
    }
}

impl PushenvGuard {
    /// The name of the variable the guard covers.
    pub closed spec fn name_view(&self) -> Seq<char> {
        self.name@
    }

    /// The recorded previous state: present with a value, or absent.
    pub closed spec fn prev_view(&self) -> Option<Seq<char>> {
        match self.prev {
            Some(v) => Some(v@),
            None => None,
        }
    }

    /// Record the previous state of a variable.
    pub fn record(name: String, prev: Option<String>) -> (g: PushenvGuard)
        ensures
            g.name_view() == name@,
            g.prev_view() == (match prev {
                Some(v) => Some(v@),
                None => None::<Seq<char>>,
            }),
    {
        PushenvGuard { name, prev }
    }

    /// The name the guard covers.
    pub fn variable_name(&self) -> (n: &String)
        ensures
            n@ == self.name_view(),
    {
        &self.name
    }

    /// The state a release must restore.
    pub fn previous_value(&self) -> (p: &Option<String>)
        ensures
            p is Some <==> self.prev_view() is Some,
            p matches Some(v) ==> self.prev_view() == Some(v@),
    {
        &self.prev
    }
}

/// `path` resolved against the directory `current`: an absolute path stands
/// alone, an empty path leaves the directory unchanged, and anything else
/// is appended behind a single separator.
pub open spec fn joined_path(current: Seq<char>, path: Seq<char>) -> Seq<char> {
    if path.len() > 0 && path[0] == '/' {
        path
    } else if path.len() == 0 {
        current
    } else if current.len() > 0 && current.last() == '/' {
        current + path
    } else {
        current + seq!['/'] + path
    }
}

/// The environment after a variable is set.
pub open spec fn env_after_set(
    m: Map<Seq<char>, Seq<char>>,
    name: Seq<char>,
    value: Seq<char>,
) -> Map<Seq<char>, Seq<char>> {
    m.insert(name, value)
}

/// What an acquire records about a variable: its value, or its absence.
pub open spec fn recorded_prev(m: Map<Seq<char>, Seq<char>>, name: Seq<char>) -> Option<
    Seq<char>,
> {
    if m.dom().contains(name) {
        Some(m[name])
    } else {
        None
    }
}

/// The environment after a release restores the recorded previous state.
pub open spec fn env_after_restore(
    m: Map<Seq<char>, Seq<char>>,
    name: Seq<char>,
    prev: Option<Seq<char>>,
) -> Map<Seq<char>, Seq<char>> {
    match prev {
        Some(v) => m.insert(name, v),
        None => m.remove(name),
    }
}

/// Acquiring a variable and then releasing its guard restores the whole
/// environment: for every environment, name and value, setting the
/// variable and then restoring what the acquire recorded yields the
/// original environment again — the variable's prior value or prior
/// absence, and every other variable untouched.
pub proof fn lemma_env_guard_round_trip(
    m: Map<Seq<char>, Seq<char>>,
    name: Seq<char>,
    value: Seq<char>,
)
    ensures
        env_after_restore(env_after_set(m, name, value), name, recorded_prev(m, name)) =~= m,
{
}

/// Resolve `path` against the directory `current` (see `joined_path`).
pub fn resolve_path(current: &str, path: &str) -> (r: String)
    ensures
        r@ == joined_path(current@, path@),
{
    let plen = path.unicode_len();
    if plen > 0 && path.get_char(0) == '/' {
        String::from_str(path)
    } else if plen == 0 {
        String::from_str(current)
    } else {
        let clen = current.unicode_len();
        let mut out = String::from_str(current);
        if !(clen > 0 && current.get_char(clen - 1) == '/') {
            push_char(&mut out, '/');
            proof {
                assert(current@.push('/') + path@ =~= current@ + seq!['/'] + path@);
            }
        }
        out.append(path);
        out
    }
}

/// The logical ambient store: the current working directory and the
/// environment variables — process-wide state that all threads share.
///
/// Callers serialize every read and write of the real operating-system
/// state through one process-wide lock; these transitions give the exact
/// semantics of each operation performed between acquiring and releasing
/// that lock. Whether a directory actually exists is for the operating
/// system to decide: a caller switches the store only once the resolved
/// target has been opened successfully.
pub struct AmbientState {
    cwd: String,
    vars: Vec<EnvVar>,
}

impl AmbientState {
    /// The logical current working directory.
    pub closed spec fn cwd_view(&self) -> Seq<char> {
        self.cwd@
    }

    /// The environment as a map from variable names to values.
    pub closed spec fn env_view(&self) -> Map<Seq<char>, Seq<char>> {
        vars_map(self.vars@)
    }

    /// A store with the given working directory and no variables.
    pub fn new(initial_dir: String) -> (s: AmbientState)
        ensures
            s.cwd_view() == initial_dir@,
            s.env_view() == Map::<Seq<char>, Seq<char>>::empty(),
    {
        AmbientState { cwd: initial_dir, vars: Vec::new() }
    }

    /// The logical current working directory, as every reader under the
    /// lock observes it.
    pub fn current_directory(&self) -> (d: String)
        ensures
            d@ == self.cwd_view(),
    {
        self.cwd.clone()
    }

    /// Look a variable up: its value, or `None` when it is absent.
    pub fn lookup_env(&self, name: &str) -> (r: Option<String>)
        ensures
            r is Some <==> self.env_view().dom().contains(name@),
            r matches Some(v) ==> v@ == self.env_view()[name@],
    {
        let key = String::from_str(name);
        let r = lookup_prefix(&self.vars, self.vars.len(), &key);
        proof {
            assert(self.vars@.take(self.vars@.len() as int) =~= self.vars@);
        }
        r
    }

    /// Switch to `path` resolved against the current directory, recording
    /// the prior directory in the returned guard.
    pub fn acquire_directory(&mut self, path: &str) -> (g: PushdGuard)
        ensures
            final(self).env_view() == old(self).env_view(),
            final(self).cwd_view() == joined_path(old(self).cwd_view(), path@),
            g.prev_view() == old(self).cwd_view(),
    {
        let prev = self.cwd.clone();
        let target = resolve_path(self.cwd.as_str(), path);
        self.cwd = target;
        PushdGuard { prev_dir: prev }
    }

    /// Restore the directory the guard records. Releases of guards over the
    /// same slot must come in the reverse of their acquire order.
    pub fn release_directory(&mut self, g: PushdGuard)
        ensures
            final(self).env_view() == old(self).env_view(),
            final(self).cwd_view() == g.prev_view(),
    {
        self.cwd = g.prev_dir;
    }

    /// Set a variable to `value`, recording in the returned guard whether
    /// it was previously absent or present with some value.
    pub fn acquire_env(&mut self, name: &str, value: &str) -> (g: PushenvGuard)
        ensures
            final(self).cwd_view() == old(self).cwd_view(),
            final(self).env_view() == env_after_set(old(self).env_view(), name@, value@),
            g.name_view() == name@,
            g.prev_view() == recorded_prev(old(self).env_view(), name@),
    {
        let prev = self.lookup_env(name);
        let ghost pre = self.vars@;
        self.vars.push(EnvVar { name: String::from_str(name), value: String::from_str(value) });
        proof {
            assert(self.vars@.drop_last() =~= pre);
        }
        PushenvGuard { name: String::from_str(name), prev }
    }

    /// Restore exactly the previous presence or absence the guard records.
    /// Releases of guards over the same slot must come in the reverse of
    /// their acquire order.
    pub fn release_env(&mut self, g: PushenvGuard)
        ensures
            final(self).cwd_view() == old(self).cwd_view(),
            final(self).env_view() == env_after_restore(
                old(self).env_view(),
                g.name_view(),
                g.prev_view(),
            ),
    {
        match g.prev {
            Some(v) => {
                let ghost pre = self.vars@;
                self.vars.push(EnvVar { name: g.name, value: v });
                proof {
                    assert(self.vars@.drop_last() =~= pre);
                }
            },
            None => {
                remove_var(&mut self.vars, &g.name);
            },
        }
    }
}

/// Look `name` up among the first `n` variables, the most recent entry
/// winning.
fn lookup_prefix(vars: &Vec<EnvVar>, n: usize, name: &String) -> (r: Option<String>)
    requires
        n <= vars@.len(),
    ensures
        r is Some <==> vars_map(vars@.take(n as int)).dom().contains(name@),
        r matches Some(v) ==> v@ == vars_map(vars@.take(n as int))[name@],
    decreases n,
{
    if n == 0 {
        proof {
            assert(vars@.take(0) =~= Seq::<EnvVar>::empty());
        }
        None
    } else {
        proof {
            assert(vars@.take(n as int).drop_last() =~= vars@.take(n as int - 1));
            assert(vars@.take(n as int).last() == vars@[n as int - 1]);
        }
        if vars[n - 1].name == *name {
            Some(vars[n - 1].value.clone())
        } else {
            lookup_prefix(vars, n - 1, name)
        }
    }
}

/// Remove every entry for `name`, leaving the environment without it.
fn remove_var(vars: &mut Vec<EnvVar>, name: &String)
    ensures
        vars_map(final(vars)@) == vars_map(old(vars)@).remove(name@),
    decreases old(vars)@.len(),
{
    let ghost whole = vars@;
    match vars.pop() {
        None => {
            proof {
                assert(vars_map(whole).remove(name@) =~= vars_map(whole));
            }
        },
        Some(last) => {
            remove_var(vars, name);
            if last.name == *name {
                proof {
                    assert(vars_map(whole.drop_last()).insert(last.name@, last.value@).remove(
                        name@,
                    ) =~= vars_map(whole.drop_last()).remove(name@));
                }
            } else {
                let ghost pre = vars@;
                let ghost lastv = last;
                vars.push(last);
                proof {
                    assert(vars@.drop_last() =~= pre);
                    assert(vars_map(whole.drop_last()).remove(name@).insert(
                        lastv.name@,
                        lastv.value@,
                    ) =~= vars_map(whole.drop_last()).insert(lastv.name@, lastv.value@).remove(
                        name@,
                    ));
                }
            }
        },
    }
}

} // verus!
