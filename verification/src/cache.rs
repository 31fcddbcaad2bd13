//! The script cache's verified half: the in-memory list of saved script
//! names.
//!
//! The cache directory on disk — creating it, reading it, writing and
//! deleting script files — is I/O and lives outside the library. What is
//! verified here is the bookkeeping over the names the directory holds, the
//! lookup the `run` path makes before any LLM call, and the exact file
//! content a saved script is given.

use vstd::prelude::*;

use crate::errors::CacheError;

verus! {

/// The names of the saved scripts, in the order the directory listed them.
#[derive(Debug)]
pub struct Cache {
    scripts: Vec<String>,
}

/// `name` is among `scripts`.
pub open spec fn has_script(scripts: Seq<String>, name: Seq<char>) -> bool {
    exists|i: int| 0 <= i < scripts.len() && scripts[i]@ == name
}

/// The first position of `name` among `scripts`.
pub open spec fn first_script_at(scripts: Seq<String>, name: Seq<char>) -> int {
    choose|i: int|
        0 <= i < scripts.len() && scripts[i]@ == name && (forall|j: int|
            0 <= j < i ==> scripts[j]@ != name)
}

impl View for Cache {
    type V = Seq<String>;

    closed spec fn view(&self) -> Seq<String> {
        self.scripts@
    }
}

impl Cache {
    /// A cache over the names the runner read from the cache directory.
    pub fn from_names(scripts: Vec<String>) -> (r: Self)
        ensures
            r@ == scripts@,
    {
        Cache { scripts }
    }

    /// Replaces the names wholesale, as a directory re-read does.
    pub fn refresh_scripts(&mut self, scripts: Vec<String>)
        ensures
            final(self)@ == scripts@,
    {
        self.scripts = scripts;
    }

    /// Looks a query up by exact name: the hit is returned exactly when the
    /// query names a saved script.
    pub fn search(&self, query: &str) -> (r: Option<&String>)
        ensures
            match r {
                Some(s) => s@ == query@ && has_script(self@, query@),
                None => !has_script(self@, query@),
            },
    {
        let wanted: String = query.to_owned();
        let n = self.scripts.len();
        for i in 0..n
            invariant
                n == self.scripts.len(),
                wanted@ == query@,
                forall|j: int| 0 <= j < i ==> self.scripts@[j]@ != query@,
        {
            if self.scripts[i] == wanted {
                return Some(&self.scripts[i]);
            }
        }
        None
    }

    /// Every saved script's name, in order.
    pub fn list_scripts(&self) -> (r: Vec<String>)
        ensures
            r@.len() == self@.len(),
            forall|i: int| 0 <= i < r@.len() ==> #[trigger] r@[i]@ == self@[i]@,
    {
        let mut out: Vec<String> = Vec::new();
        let n = self.scripts.len();
        for i in 0..n
            invariant
                n == self.scripts.len(),
                out@.len() == i,
                forall|j: int| 0 <= j < i ==> #[trigger] out@[j]@ == self.scripts@[j]@,
        {
            out.push(self.scripts[i].clone());
        }
        out
    }

    /// Records one newly saved script's name at the end of the list.
    pub fn add_new_script(&mut self, name: String)
        ensures
            final(self)@ == old(self)@.push(name),
    {
        self.scripts.push(name);
    }

    /// Forgets a script by name: the first entry of that name leaves the
    /// list; a name that is not there is refused and nothing changes.
    pub fn delete_script(&mut self, name: &str) -> (r: Result<(), CacheError>)
        ensures
            match r {
                Ok(()) => has_script(old(self)@, name@) && {
                    let i = first_script_at(old(self)@, name@);
                    final(self)@ == old(self)@.subrange(0, i) + old(self)@.subrange(
                        i + 1,
                        old(self)@.len() as int,
                    )
                },
                Err(CacheError::ScriptNotFound { name: n }) => !has_script(old(self)@, name@)
                    && n@ == name@ && final(self)@ == old(self)@,
            },
    {
        let wanted: String = name.to_owned();
        let n = self.scripts.len();
        for i in 0..n
            invariant
                n == self.scripts.len(),
                self.scripts@ == old(self)@,
                wanted@ == name@,
                forall|j: int| 0 <= j < i ==> self.scripts@[j]@ != name@,
        {
            if self.scripts[i] == wanted {
                proof {
                    let ii: int = i as int;
                    assert(0 <= ii < self.scripts@.len() && self.scripts@[ii]@ == name@ && (
                    forall|j: int| 0 <= j < ii ==> self.scripts@[j]@ != name@));
                    assert(has_script(self.scripts@, name@));
                    let k = first_script_at(self.scripts@, name@);
                    assert(0 <= k < self.scripts@.len() && self.scripts@[k]@ == name@ && (
                    forall|j: int| 0 <= j < k ==> self.scripts@[j]@ != name@));
                    assert(k == ii);
                }
                self.scripts.remove(i);
                proof {
                    assert(self.scripts@ =~= old(self)@.subrange(0, i as int) + old(
                        self,
                    )@.subrange(i as int + 1, old(self)@.len() as int));
                }
                return Ok(());
            }
        }
        Err(CacheError::ScriptNotFound { name: wanted })
    }
}

/// What a saved script file holds: the shebang line, then the command text.
pub open spec fn script_file_content_spec(command: Seq<char>) -> Seq<char> {
    "#!/usr/bin/env sh\n"@ + command
}

/// The content a saved script file is given.
pub fn script_file_content(command: &str) -> (r: String)
    ensures
        r@ == script_file_content_spec(command@),
{
    let mut out: String = "#!/usr/bin/env sh\n".to_owned();
    out.append(command);
    out
}

/// What a saved script file is named.
pub open spec fn script_file_name_spec(name: Seq<char>) -> Seq<char> {
    name + ".sh"@
}

/// The file name a saved script is given.
pub fn script_file_name(name: &str) -> (r: String)
    ensures
        r@ == script_file_name_spec(name@),
{
    let mut out: String = name.to_owned();
    out.append(".sh");
    out
}

} // verus!
