//! User configuration: the cache switch and the preferred command-line
//! tools, as the configuration file holds them.
//!
//! Reading and writing the file is I/O and lives outside the library; the
//! values and the prompt text built from them are verified here.

use vstd::prelude::*;

verus! {

/// One tool the user prefers for some kind of work.
#[derive(Debug)]
pub struct PreferredCLI {
    name: String,
    preferred_for: String,
}

impl PreferredCLI {
    pub closed spec fn spec_name(self) -> Seq<char> {
        self.name@
    }

    pub closed spec fn spec_preferred_for(self) -> Seq<char> {
        self.preferred_for@
    }

    pub fn new(name: String, preferred_for: String) -> (r: Self)
        ensures
            r.spec_name() == name@,
            r.spec_preferred_for() == preferred_for@,
    {
        PreferredCLI { name, preferred_for }
    }
}

/// The user's configuration.
#[derive(Debug)]
pub struct Configurations {
    pub enable_cache: bool,
    pub preferred_clis: Vec<PreferredCLI>,
}

/// One preference, rendered for the system prompt.
pub open spec fn preferred_cli_line(cli: PreferredCLI) -> Seq<char> {
    "The user prefers using "@ + cli.spec_name() + " for "@ + cli.spec_preferred_for()
}

/// Every preference, rendered in order.
pub open spec fn preferred_clis_text(clis: Seq<PreferredCLI>) -> Seq<char>
    decreases clis.len(),
{
    if clis.len() == 0 {
        Seq::empty()
    } else {
        preferred_clis_text(clis.drop_last()) + preferred_cli_line(clis.last())
    }
}

impl Configurations {
    pub open spec fn spec_preferred_clis(self) -> Seq<PreferredCLI> {
        self.preferred_clis@
    }

    pub fn new(enable_cache: bool, preferred_clis: Vec<PreferredCLI>) -> (r: Self)
        ensures
            r.enable_cache == enable_cache,
            r.spec_preferred_clis() == preferred_clis@,
    {
        Configurations { enable_cache, preferred_clis }
    }

    /// The prompt sentence for each preferred tool, concatenated in order.
    pub fn get_preferred_clis(&self) -> (r: String)
        ensures
            r@ == preferred_clis_text(self.spec_preferred_clis()),
    {
        let mut out = String::new();
        let n = self.preferred_clis.len();
        for i in 0..n
            invariant
                n == self.preferred_clis.len(),
                out@ == preferred_clis_text(self.preferred_clis@.take(i as int)),
        {
            let cli = &self.preferred_clis[i];
            out.append("The user prefers using ");
            out.append(cli.name.as_str());
            out.append(" for ");
            out.append(cli.preferred_for.as_str());
            proof {
                assert(self.preferred_clis@.take(i + 1 as int).drop_last()
                    =~= self.preferred_clis@.take(i as int));
                assert(self.preferred_clis@.take(i + 1 as int).last() == self.preferred_clis@[i as int]);
                assert(out@ =~= preferred_clis_text(self.preferred_clis@.take(i + 1 as int)));
            }
        }
        proof {
            assert(self.preferred_clis@.take(n as int) =~= self.preferred_clis@);
        }
        out
    }
}

impl Default for Configurations {
    /// The configuration a fresh installation is given: cache off, no
    /// preferences.
    fn default() -> (r: Self)
        ensures
            !r.enable_cache,
            r.spec_preferred_clis().len() == 0,
    {
        Configurations { enable_cache: false, preferred_clis: Vec::new() }
    }
}

} // verus!
