//! Artifacts that could not be collected for want of permissions, and the
//! advice given to the user about them.
use vstd::prelude::*;
use crate::text::{append_chars, append_str, chars_of, contains_sub, decimal, decimal_exec, str_contains, str_eq, string_of};

verus! {

/// The names of the artifacts that failed for want of permissions, each
/// once, in the order in which they first failed.
pub struct PermissionTracker {
    failed_artifacts: Vec<String>,
}

/// Whether an error message speaks of missing permissions.
pub open spec fn permission_error(msg: Seq<char>) -> bool {
    contains_sub(msg, "Permission denied"@) || contains_sub(msg, "PermissionDenied"@) || contains_sub(
        msg,
        "Access is denied"@,
    ) || contains_sub(msg, "elevated privileges"@)
}

/// The rule that frames the report.
pub open spec fn report_rule() -> Seq<char> {
    "━━━━━━━━━━━━━━━━━━━━━━━━━━━━━━━━━━━━━━━━━━━━━━━━━━━━━━━━━━━━━━━━━━━━━━━━"@
}

/// The line that says how many artifacts failed.
pub open spec fn count_line(n: nat) -> Seq<char> {
    "The following "@ + decimal(n)
        + " artifact(s) could not be collected due to insufficient permissions:"@
}

/// The line that names one failed artifact.
pub open spec fn artifact_line(name: Seq<char>) -> Seq<char> {
    "  • "@ + name
}

/// The advice for the operating system `os` (`linux`, `windows` or
/// `macos`), where `command` is the command line the collector ran with.
pub open spec fn elevation_advice(os: Seq<char>, command: Seq<char>) -> Seq<Seq<char>> {
    if os == "linux"@ {
        seq![
            "  1. Run with sudo: sudo "@ + command,
            "  2. Add your user to required groups (e.g., 'adm' for logs): sudo usermod -a -G adm $USER"@,
            "  3. Adjust file permissions on specific files/directories"@,
        ]
    } else if os == "windows"@ {
        seq![
            "  1. Run as Administrator (right-click and 'Run as administrator')"@,
            "  2. Ensure your user account has appropriate permissions"@,
            "  3. Check Windows security policies"@,
        ]
    } else if os == "macos"@ {
        seq![
            "  1. Run with sudo: sudo "@ + command,
            "  2. Grant Full Disk Access in System Preferences > Security & Privacy"@,
            "  3. Check file permissions with 'ls -la'"@,
        ]
    } else {
        Seq::empty()
    }
}

/// The report on the failed artifacts `names`: nothing where none failed;
/// else a framed summary that names each of them and gives the advice for
/// `os`.
pub open spec fn report_text(names: Seq<Seq<char>>, os: Seq<char>, command: Seq<char>) -> Seq<Seq<char>> {
    if names.len() == 0 {
        Seq::empty()
    } else {
        seq![
            report_rule(),
            "⚠️  Permission Issues Summary"@,
            report_rule(),
            Seq::<char>::empty(),
            count_line(names.len()),
            Seq::<char>::empty(),
        ] + names.map_values(|n: Seq<char>| artifact_line(n)) + seq![
            Seq::<char>::empty(),
            "To collect these artifacts, try one of the following:"@,
            Seq::<char>::empty(),
        ] + elevation_advice(os, command) + seq![
            Seq::<char>::empty(),
            "Note: Collection continued for accessible artifacts."@,
            report_rule(),
        ]
    }
}

/// The failed artifacts `names` once `name` has failed too: unchanged where
/// it is among them, else with it added at the end.
pub open spec fn with_failure(names: Seq<Seq<char>>, name: Seq<char>) -> Seq<Seq<char>> {
    if names.contains(name) {
        names
    } else {
        names.push(name)
    }
}

/// The views of a list of strings.
pub open spec fn texts(v: Seq<String>) -> Seq<Seq<char>> {
    v.map_values(|s: String| s@)
}

/// Adds the line `s` at the end of `r`.
fn push_line(r: &mut Vec<String>, s: String)
    ensures
        texts(final(r)@) == texts(old(r)@).push(s@),
{
    r.push(s);
    assert(texts(r@) =~= texts(old(r)@).push(s@));
}

impl PermissionTracker {
    #[verifier::type_invariant]
    spec fn each_name_once(&self) -> bool {
        texts(self.failed_artifacts@).no_duplicates()
    }

    /// The failed artifacts, in the order in which they first failed.
    pub closed spec fn names(&self) -> Seq<Seq<char>> {
        texts(self.failed_artifacts@)
    }

    /// The set of failed artifacts.
    pub open spec fn failures(&self) -> Set<Seq<char>> {
        self.names().to_set()
    }

    /// A tracker with no failure recorded.
    pub fn new() -> (t: Self)
        ensures
            t.names() == Seq::<Seq<char>>::empty(),
    {
        let t = PermissionTracker { failed_artifacts: Vec::new() };
        assert(texts(t.failed_artifacts@) =~= Seq::<Seq<char>>::empty());
        t
    }

    /// Whether `name` is already recorded.
    fn is_recorded(&self, name: &str) -> (r: bool)
        ensures
            r == self.names().contains(name@),
    {
        let mut i: usize = 0;
        while i < self.failed_artifacts.len()
            invariant
                i <= self.failed_artifacts@.len(),
                forall|k: int| 0 <= k < i ==> self.names()[k] != name@,
            decreases self.failed_artifacts.len() - i,
        {
            if str_eq(self.failed_artifacts[i].as_str(), name) {
                assert(self.names()[i as int] == name@);
                return true;
            }
            i += 1;
        }
        false
    }

    /// Records that the artifact `artifact_name` failed for want of
    /// permissions; an artifact that already failed is not recorded again.
    pub fn record_permission_failure(&mut self, artifact_name: &str)
        ensures
            final(self).names() == with_failure(old(self).names(), artifact_name@),
    {
        proof {
            use_type_invariant(&*self);
        }
        if self.is_recorded(artifact_name) {
            return;
        }
        let mut v: Vec<String> = Vec::new();
        std::mem::swap(&mut v, &mut self.failed_artifacts);
        let ghost before = texts(v@);
        v.push(string_of(&chars_of(artifact_name)));
        assert(texts(v@) =~= before.push(artifact_name@));
        assert(texts(v@).no_duplicates()) by {
            assert forall|i: int, j: int|
                0 <= i < texts(v@).len() && 0 <= j < texts(v@).len() && i != j implies texts(v@)[i]
                != texts(v@)[j] by {
                if i == before.len() {
                    assert(!before.contains(artifact_name@));
                    assert(before[j] == texts(v@)[j]);
                } else if j == before.len() {
                    assert(before[i] == texts(v@)[i]);
                }
            }
        }
        self.failed_artifacts = v;
    }

    /// Whether an error message speaks of missing permissions.
    pub fn is_permission_error(error_msg: &str) -> (r: bool)
        ensures
            r == permission_error(error_msg@),
    {
        str_contains(error_msg, "Permission denied") || str_contains(error_msg, "PermissionDenied")
            || str_contains(error_msg, "Access is denied") || str_contains(error_msg, "elevated privileges")
    }

    /// How many artifacts failed for want of permissions.
    pub fn failure_count(&self) -> (n: usize)
        ensures
            n == self.names().len(),
            n == self.failures().len(),
    {
        proof {
            use_type_invariant(self);
            self.names().unique_seq_to_set();
        }
        self.failed_artifacts.len()
    }

    /// Whether the user should be told to run with elevated privileges:
    /// whenever some artifact failed for want of them.
    pub fn should_suggest_elevation(&self) -> (r: bool)
        ensures
            r == (self.names().len() > 0),
            r == !self.failures().is_empty(),
    {
        proof {
            use_type_invariant(self);
            self.names().unique_seq_to_set();
            if self.names().len() > 0 {
                assert(self.failures().contains(self.names()[0]));
            }
        }
        self.failed_artifacts.len() > 0
    }

    /// The lines of the report on the failed artifacts, for the operating
    /// system `os` and the command line `command`, as `report_text` says.
    pub fn report_lines(&self, os: &str, command: &str) -> (r: Vec<String>)
        ensures
            texts(r@) == report_text(self.names(), os@, command@),
    {
        let n = self.failed_artifacts.len();
        let mut r: Vec<String> = Vec::new();
        if n == 0 {
            assert(texts(r@) =~= report_text(self.names(), os@, command@));
            return r;
        }
        let rule = "━━━━━━━━━━━━━━━━━━━━━━━━━━━━━━━━━━━━━━━━━━━━━━━━━━━━━━━━━━━━━━━━━━━━━━━━";
        push_line(&mut r, String::from_str(rule));
        push_line(&mut r, String::from_str("⚠️  Permission Issues Summary"));
        push_line(&mut r, String::from_str(rule));
        push_line(&mut r, String::new());
        let mut count = chars_of("The following ");
        let digits = decimal_exec(n as u64);
        append_chars(&mut count, &digits);
        append_str(&mut count, " artifact(s) could not be collected due to insufficient permissions:");
        push_line(&mut r, string_of(&count));
        push_line(&mut r, String::new());
        let ghost head = texts(r@);
        let mut i: usize = 0;
        while i < n
            invariant
                n == self.failed_artifacts@.len(),
                i <= n,
                texts(r@) == head + self.names().take(i as int).map_values(|m: Seq<char>| artifact_line(m)),
            decreases n - i,
        {
            let mut line = chars_of("  • ");
            append_str(&mut line, self.failed_artifacts[i].as_str());
            push_line(&mut r, string_of(&line));
            proof {
                assert(self.names().take(i + 1) =~= self.names().take(i as int).push(self.names()[i as int]));
                assert(self.names().take(i + 1).map_values(|m: Seq<char>| artifact_line(m)) =~= self.names().take(
                    i as int,
                ).map_values(|m: Seq<char>| artifact_line(m)).push(artifact_line(self.names()[i as int])));
            }
            i += 1;
        }
        assert(self.names().take(n as int) =~= self.names());
        let ghost listed = texts(r@);
        push_line(&mut r, String::new());
        push_line(&mut r, String::from_str("To collect these artifacts, try one of the following:"));
        push_line(&mut r, String::new());
        if str_eq(os, "linux") {
            let mut first = chars_of("  1. Run with sudo: sudo ");
            append_str(&mut first, command);
            push_line(&mut r, string_of(&first));
            push_line(&mut r, String::from_str("  2. Add your user to required groups (e.g., 'adm' for logs): sudo usermod -a -G adm $USER"));
            push_line(&mut r, String::from_str("  3. Adjust file permissions on specific files/directories"));
        } else if str_eq(os, "windows") {
            push_line(&mut r, String::from_str("  1. Run as Administrator (right-click and 'Run as administrator')"));
            push_line(&mut r, String::from_str("  2. Ensure your user account has appropriate permissions"));
            push_line(&mut r, String::from_str("  3. Check Windows security policies"));
        } else if str_eq(os, "macos") {
            let mut first = chars_of("  1. Run with sudo: sudo ");
            append_str(&mut first, command);
            push_line(&mut r, string_of(&first));
            push_line(&mut r, String::from_str("  2. Grant Full Disk Access in System Preferences > Security & Privacy"));
            push_line(&mut r, String::from_str("  3. Check file permissions with 'ls -la'"));
        }
        push_line(&mut r, String::new());
        push_line(&mut r, String::from_str("Note: Collection continued for accessible artifacts."));
        push_line(&mut r, String::from_str(rule));
        assert(texts(r@) =~= report_text(self.names(), os@, command@));
        r
    }
}

} // verus!
