//! Contextual information: the environment facts the system prompt carries.
//!
//! Gathering the facts — the system's name and versions, the clock, the
//! working directory and its listing — is the runner's I/O. The library
//! holds them as plain text and builds the prompt section from them, exactly.

use vstd::prelude::*;

use crate::configurations::{preferred_clis_text, Configurations};

verus! {

/// The lines of the system-facts block, from the four facts the runner read.
pub open spec fn system_information_text_spec(
    system_name: Seq<char>,
    kernel_version: Seq<char>,
    os_version: Seq<char>,
    host_name: Seq<char>,
) -> Seq<char> {
    "System: "@ + system_name + "\n"@ + "Kernel Version: "@ + kernel_version + "\n"@
        + "OS Version: "@ + os_version + "\n"@ + "Host Name: "@ + host_name + "\n"@
}

/// Renders the system facts block, one labelled line per fact.
pub fn system_information_text(
    system_name: &str,
    kernel_version: &str,
    os_version: &str,
    host_name: &str,
) -> (r: String)
    ensures
        r@ == system_information_text_spec(
            system_name@,
            kernel_version@,
            os_version@,
            host_name@,
        ),
{
    let mut out: String = "System: ".to_owned();
    out.append(system_name);
    out.append("\n");
    out.append("Kernel Version: ");
    out.append(kernel_version);
    out.append("\n");
    out.append("OS Version: ");
    out.append(os_version);
    out.append("\n");
    out.append("Host Name: ");
    out.append(host_name);
    out.append("\n");
    proof {
        assert(out@ =~= system_information_text_spec(
            system_name@,
            kernel_version@,
            os_version@,
            host_name@,
        ));
    }
    out
}

/// One line of the working-directory listing.
pub open spec fn directory_entry_line_spec(is_directory: bool, name: Seq<char>) -> Seq<char> {
    (if is_directory {
        "dir "@
    } else {
        "file "@
    }) + name + "\n"@
}

/// Renders one entry of the working-directory listing.
pub fn directory_entry_line(is_directory: bool, name: &str) -> (r: String)
    ensures
        r@ == directory_entry_line_spec(is_directory, name@),
{
    let mut out: String = if is_directory {
        "dir ".to_owned()
    } else {
        "file ".to_owned()
    };
    out.append(name);
    out.append("\n");
    proof {
        assert(out@ =~= directory_entry_line_spec(is_directory, name@));
    }
    out
}

/// The environment facts for one session, gathered once at start.
#[derive(Debug)]
pub struct ContextualInformation {
    system_information: String,
    current_time: String,
    current_directory_structure: String,
    current_working_directory: String,
    configurations: Configurations,
}

/// The prompt section the facts are rendered into.
pub open spec fn contextual_information_text(info: ContextualInformation) -> Seq<char> {
    "Environment:\n"@ + info.spec_system_information() + "Current Working Directory: "@
        + info.spec_current_working_directory() + "\n"@ + "Current Working Directory Sturcture: "@
        + info.spec_current_directory_structure() + "\n"@ + "Current Date and Time: "@
        + info.spec_current_time() + "\n"@ + "User preferred CLIs: "@ + preferred_clis_text(
        info.spec_configurations().spec_preferred_clis(),
    ) + "\n"@
}

impl ContextualInformation {
    pub closed spec fn spec_system_information(self) -> Seq<char> {
        self.system_information@
    }

    pub closed spec fn spec_current_time(self) -> Seq<char> {
        self.current_time@
    }

    pub closed spec fn spec_current_directory_structure(self) -> Seq<char> {
        self.current_directory_structure@
    }

    pub closed spec fn spec_current_working_directory(self) -> Seq<char> {
        self.current_working_directory@
    }

    pub closed spec fn spec_configurations(self) -> Configurations {
        self.configurations
    }

    /// Holds the facts the runner gathered.
    pub fn new(
        system_information: String,
        current_time: String,
        current_directory_structure: String,
        current_working_directory: String,
        configurations: Configurations,
    ) -> (r: Self)
        ensures
            r.spec_system_information() == system_information@,
            r.spec_current_time() == current_time@,
            r.spec_current_directory_structure() == current_directory_structure@,
            r.spec_current_working_directory() == current_working_directory@,
            r.spec_configurations() == configurations,
    {
        ContextualInformation {
            system_information,
            current_time,
            current_directory_structure,
            current_working_directory,
            configurations,
        }
    }

    /// Renders the facts as the prompt section the agents inject.
    pub fn get_contextual_information(&self) -> (r: String)
        ensures
            r@ == contextual_information_text(*self),
    {
        let mut out: String = "Environment:\n".to_owned();
        out.append(self.system_information.as_str());
        out.append("Current Working Directory: ");
        out.append(self.current_working_directory.as_str());
        out.append("\n");
        out.append("Current Working Directory Sturcture: ");
        out.append(self.current_directory_structure.as_str());
        out.append("\n");
        out.append("Current Date and Time: ");
        out.append(self.current_time.as_str());
        out.append("\n");
        out.append("User preferred CLIs: ");
        let clis = self.configurations.get_preferred_clis();
        out.append(clis.as_str());
        out.append("\n");
        proof {
            assert(out@ =~= contextual_information_text(*self));
        }
        out
    }
}

} // verus!
