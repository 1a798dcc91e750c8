//! Classification of shell commands by how much harm they can do, with warnings.
use vstd::prelude::*;

use crate::patterns::{any_finds, set_builds, PatternSet};
use crate::text::{contains_seq, contains_text, string_texts, to_chars, word_texts};

verus! {

/// Patterns of commands that can destroy data or the machine's state.
pub open spec fn destructive_table() -> Seq<Seq<char>> {
    seq![
        r"rm\s+-rf"@,
        r"rm\s+-r"@,
        r"sudo\s+rm"@,
        r"rm\s+/"@,
        r"del\s+"@,
        r"rmdir"@,
        r"format\s+"@,
        r"fdisk"@,
        r"dd\s+if="@,
        r"sudo\s+dd"@,
        r">\s*/dev/"@,
        r"sudo\s+chmod\s+777"@,
        r"chmod\s+-R\s+777"@,
        r"sudo\s+chown\s+-R"@,
        r"curl.*\|\s*bash"@,
        r"wget.*\|\s*bash"@,
        r"mkfs\."@,
        r"format\s+c:"@,
        r"del\s+/s\s+/q"@,
        r"shutdown"@,
        r"reboot"@,
        r"halt"@,
    ]
}

/// Patterns of commands that act on the system as a whole.
pub open spec fn system_level_table() -> Seq<Seq<char>> {
    seq![
        r"sudo\s+"@,
        r"su\s+"@,
        r"doas\s+"@,
        r"systemctl"@,
        r"/etc/"@,
        r"/var/"@,
        r"/usr/"@,
        r"/bin/"@,
        r"/sbin/"@,
        r"mount\s+"@,
        r"umount\s+"@,
        r"iptables"@,
        r"firewall"@,
        r"passwd"@,
        r"useradd"@,
        r"userdel"@,
    ]
}

/// Patterns that the older single check treats as dangerous.
pub open spec fn dangerous_table() -> Seq<Seq<char>> {
    seq![
        r"rm\s+-rf"@,
        r"sudo\s+rm"@,
        r"chmod\s+777"@,
        r"curl.*\|\s*bash"@,
        r"wget.*\|\s*bash"@,
        r"dd\s+if="@,
        r"mkfs\."@,
        r"format\s+c:"@,
        r"del\s+/s\s+/q"@,
        r"shutdown"@,
        r"reboot"@,
        r"halt"@,
    ]
}

fn destructive_list() -> (r: Vec<&'static str>)
    ensures
        word_texts(r@) == destructive_table(),
{
    let r = vec![
        r"rm\s+-rf",
        r"rm\s+-r",
        r"sudo\s+rm",
        r"rm\s+/",
        r"del\s+",
        r"rmdir",
        r"format\s+",
        r"fdisk",
        r"dd\s+if=",
        r"sudo\s+dd",
        r">\s*/dev/",
        r"sudo\s+chmod\s+777",
        r"chmod\s+-R\s+777",
        r"sudo\s+chown\s+-R",
        r"curl.*\|\s*bash",
        r"wget.*\|\s*bash",
        r"mkfs\.",
        r"format\s+c:",
        r"del\s+/s\s+/q",
        r"shutdown",
        r"reboot",
        r"halt",
    ];
    assert(word_texts(r@) =~= destructive_table());
    r
}

fn system_level_list() -> (r: Vec<&'static str>)
    ensures
        word_texts(r@) == system_level_table(),
{
    let r = vec![
        r"sudo\s+",
        r"su\s+",
        r"doas\s+",
        r"systemctl",
        r"/etc/",
        r"/var/",
        r"/usr/",
        r"/bin/",
        r"/sbin/",
        r"mount\s+",
        r"umount\s+",
        r"iptables",
        r"firewall",
        r"passwd",
        r"useradd",
        r"userdel",
    ];
    assert(word_texts(r@) =~= system_level_table());
    r
}

fn dangerous_list() -> (r: Vec<&'static str>)
    ensures
        word_texts(r@) == dangerous_table(),
{
    let r = vec![
        r"rm\s+-rf",
        r"sudo\s+rm",
        r"chmod\s+777",
        r"curl.*\|\s*bash",
        r"wget.*\|\s*bash",
        r"dd\s+if=",
        r"mkfs\.",
        r"format\s+c:",
        r"del\s+/s\s+/q",
        r"shutdown",
        r"reboot",
        r"halt",
    ];
    assert(word_texts(r@) =~= dangerous_table());
    r
}

/// Whether every pattern of `patterns` is one of `table`.
pub open spec fn drawn_from(patterns: Seq<Seq<char>>, table: Seq<Seq<char>>) -> bool {
    forall|i: int| 0 <= i < patterns.len() ==> table.contains(#[trigger] patterns[i])
}

/// Whether `input` matches one of the dangerous patterns, whatever the tool. Patterns are
/// compiled on each call; only a pattern that compiles can match.
pub fn is_dangerous_command(_tool_name: &str, input: &str) -> (r: bool)
    ensures
        r ==> any_finds(dangerous_table(), input@),
        set_builds(dangerous_table()) ==> r == any_finds(dangerous_table(), input@),
{
    let table = dangerous_list();
    let set = PatternSet::compile(&table);
    let found = set.is_match(input);
    proof {
        if found {
            let i = choose|i: int| 0 <= i < set.patterns().len() && crate::patterns::regex_finds(
                #[trigger] set.patterns()[i],
                input@,
            );
            let j = dangerous_table().index_of(set.patterns()[i]);
            assert(dangerous_table()[j] == set.patterns()[i]);
        }
    }
    found
}

/// How much harm a command can do, from least to most.
#[derive(Debug, Clone, Copy, PartialEq, Eq, Structural)]
pub enum SecurityLevel {
    Safe,
    SystemLevel,
    Destructive,
}

/// The level of a command: destructive takes priority over system-level.
pub open spec fn level_for(destructive: bool, system_level: bool) -> SecurityLevel {
    if destructive {
        SecurityLevel::Destructive
    } else if system_level {
        SecurityLevel::SystemLevel
    } else {
        SecurityLevel::Safe
    }
}

/// The rank of a level: Safe < SystemLevel < Destructive.
pub open spec fn severity(level: SecurityLevel) -> nat {
    match level {
        SecurityLevel::Safe => 0,
        SecurityLevel::SystemLevel => 1,
        SecurityLevel::Destructive => 2,
    }
}

impl SecurityLevel {
    pub fn emoji(&self) -> (r: &'static str)
        ensures
            r@ == match self {
                SecurityLevel::Safe => "✅"@,
                SecurityLevel::SystemLevel => "🔧"@,
                SecurityLevel::Destructive => "🚨"@,
            },
    {
        match self {
            SecurityLevel::Safe => "✅",
            SecurityLevel::SystemLevel => "🔧",
            SecurityLevel::Destructive => "🚨",
        }
    }

    pub fn description(&self) -> (r: &'static str)
        ensures
            r@ == match self {
                SecurityLevel::Safe => "Safe"@,
                SecurityLevel::SystemLevel => "System-level"@,
                SecurityLevel::Destructive => "Destructive"@,
            },
    {
        match self {
            SecurityLevel::Safe => "Safe",
            SecurityLevel::SystemLevel => "System-level",
            SecurityLevel::Destructive => "Destructive",
        }
    }
}

pub open spec fn data_loss_warning() -> Seq<char> {
    "⚠️  This command may cause irreversible data loss"@
}

pub open spec fn root_target_warning() -> Seq<char> {
    "🚨 CRITICAL: This command targets the root directory!"@
}

pub open spec fn privilege_warning() -> Seq<char> {
    "⚠️  Running with elevated privileges"@
}

pub open spec fn system_level_warning() -> Seq<char> {
    "🔧 This command operates at the system level"@
}

pub open spec fn config_file_warning() -> Seq<char> {
    "⚠️  Modifying system configuration files"@
}

pub open spec fn pipe_to_shell_warning() -> Seq<char> {
    "⚠️  Piping to shell - potential security risk"@
}

/// `w` alone when `cond` holds, else nothing.
pub open spec fn when(cond: bool, w: Seq<char>) -> Seq<Seq<char>> {
    if cond {
        seq![w]
    } else {
        Seq::empty()
    }
}

/// Whether the command deletes recursively from the root directory.
pub open spec fn targets_root(c: Seq<char>) -> bool {
    contains_seq(c, "rm -rf /"@) || contains_seq(c, "rm -r /"@)
}

/// Whether the command pipes into a shell.
pub open spec fn pipes_to_shell(c: Seq<char>) -> bool {
    contains_seq(c, "|"@) && (contains_seq(c, "bash"@) || contains_seq(c, "sh"@))
}

/// The warnings for command `c`, in the order they are detected: those of a destructive
/// command, then those of a system-level one, then the pipe-to-shell warning.
pub open spec fn warnings_for(c: Seq<char>, destructive: bool, system_level: bool) -> Seq<Seq<char>> {
    (if destructive {
        seq![data_loss_warning()] + when(targets_root(c), root_target_warning()) + when(
            contains_seq(c, "sudo"@),
            privilege_warning(),
        )
    } else {
        Seq::empty()
    }) + (if system_level {
        seq![system_level_warning()] + when(contains_seq(c, "/etc/"@), config_file_warning())
    } else {
        Seq::empty()
    }) + when(pipes_to_shell(c), pipe_to_shell_warning())
}

/// The outcome of checking one command.
#[derive(Debug, Clone)]
pub struct CommandValidation {
    pub command: String,
    pub level: SecurityLevel,
    pub is_destructive: bool,
    pub is_system_level: bool,
    pub warnings: Vec<String>,
}

/// Classifies shell commands against a destructive and a system-level pattern table.
pub struct CommandValidator {
    destructive_patterns: PatternSet,
    system_level_patterns: PatternSet,
}

impl CommandValidator {
    /// The destructive patterns in force.
    pub closed spec fn destructive(&self) -> Seq<Seq<char>> {
        self.destructive_patterns.patterns()
    }

    /// The system-level patterns in force.
    pub closed spec fn system_level(&self) -> Seq<Seq<char>> {
        self.system_level_patterns.patterns()
    }

    /// Compiles both tables. A pattern that does not compile is left out.
    pub fn new() -> (r: Self)
        ensures
            drawn_from(r.destructive(), destructive_table()),
            drawn_from(r.system_level(), system_level_table()),
            set_builds(destructive_table()) ==> r.destructive() == destructive_table(),
            set_builds(system_level_table()) ==> r.system_level() == system_level_table(),
    {
        let d = destructive_list();
        let s = system_level_list();
        CommandValidator {
            destructive_patterns: PatternSet::compile(&d),
            system_level_patterns: PatternSet::compile(&s),
        }
    }

    /// How many destructive patterns are in force.
    pub fn destructive_pattern_count(&self) -> (r: usize)
        ensures
            r == self.destructive().len(),
    {
        self.destructive_patterns.len()
    }

    /// How many system-level patterns are in force.
    pub fn system_level_pattern_count(&self) -> (r: usize)
        ensures
            r == self.system_level().len(),
    {
        self.system_level_patterns.len()
    }

    pub fn is_destructive(&self, command: &str) -> (r: bool)
        ensures
            r == any_finds(self.destructive(), command@),
    {
        self.destructive_patterns.is_match(command)
    }

    pub fn is_system_level(&self, command: &str) -> (r: bool)
        ensures
            r == any_finds(self.system_level(), command@),
    {
        self.system_level_patterns.is_match(command)
    }

    /// The level of `command`. A command that matches a destructive pattern is Destructive,
    /// whether or not it also matches a system-level one.
    pub fn get_security_level(&self, command: &str) -> (r: SecurityLevel)
        ensures
            r == level_for(
                any_finds(self.destructive(), command@),
                any_finds(self.system_level(), command@),
            ),
            any_finds(self.destructive(), command@) ==> r == SecurityLevel::Destructive,
    {
        if self.is_destructive(command) {
            SecurityLevel::Destructive
        } else if self.is_system_level(command) {
            SecurityLevel::SystemLevel
        } else {
            SecurityLevel::Safe
        }
    }

    /// The level of `command`, both pattern checks, and the warnings that apply.
    pub fn validate(&self, command: &str) -> (r: CommandValidation)
        ensures
            r.command@ == command@,
            r.is_destructive == any_finds(self.destructive(), command@),
            r.is_system_level == any_finds(self.system_level(), command@),
            r.level == level_for(r.is_destructive, r.is_system_level),
            string_texts(r.warnings@) == warnings_for(
                command@,
                r.is_destructive,
                r.is_system_level,
            ),
    {
        let is_destructive = self.is_destructive(command);
        let is_system_level = self.is_system_level(command);
        let level = if is_destructive {
            SecurityLevel::Destructive
        } else if is_system_level {
            SecurityLevel::SystemLevel
        } else {
            SecurityLevel::Safe
        };
        let warnings = self.generate_warnings(command, is_destructive, is_system_level);
        CommandValidation {
            command: String::from_str(command),
            level,
            is_destructive,
            is_system_level,
            warnings,
        }
    }

    fn generate_warnings(&self, command: &str, is_destructive: bool, is_system_level: bool) -> (r:
        Vec<String>)
        ensures
            string_texts(r@) == warnings_for(command@, is_destructive, is_system_level),
    {
        let c = to_chars(command);
        let mut warnings: Vec<String> = Vec::new();
        let ghost c0 = command@;
        if is_destructive {
            warnings.push(String::from_str("⚠️  This command may cause irreversible data loss"));
            if contains_text(&c, "rm -rf /") || contains_text(&c, "rm -r /") {
                warnings.push(
                    String::from_str("🚨 CRITICAL: This command targets the root directory!"),
                );
            }
            if contains_text(&c, "sudo") {
                warnings.push(String::from_str("⚠️  Running with elevated privileges"));
            }
        }
        let ghost first = string_texts(warnings@);
        if is_system_level {
            warnings.push(String::from_str("🔧 This command operates at the system level"));
            if contains_text(&c, "/etc/") {
                warnings.push(String::from_str("⚠️  Modifying system configuration files"));
            }
        }
        let ghost second = string_texts(warnings@);
        if contains_text(&c, "|") && (contains_text(&c, "bash") || contains_text(&c, "sh")) {
            warnings.push(String::from_str("⚠️  Piping to shell - potential security risk"));
        }
        assert(string_texts(warnings@) =~= warnings_for(command@, is_destructive, is_system_level));
        warnings
    }
}

impl Default for CommandValidator {
    fn default() -> (r: Self)
        ensures
            drawn_from(r.destructive(), destructive_table()),
            drawn_from(r.system_level(), system_level_table()),
    {
        CommandValidator::new()
    }
}

/// The level of a command is Destructive exactly when a destructive pattern matches it, even
/// when a system-level pattern matches it too.
pub proof fn lemma_destructive_takes_priority(destructive: bool, system_level: bool)
    ensures
        (level_for(destructive, system_level) == SecurityLevel::Destructive) == destructive,
        severity(level_for(destructive, system_level)) >= severity(level_for(false, system_level)),
{
}

/// A destructive command that deletes recursively from the root directory is warned about
/// data loss first and about the root directory second.
pub proof fn lemma_root_delete_warnings(c: Seq<char>, system_level: bool)
    requires
        targets_root(c),
    ensures
        warnings_for(c, true, system_level).len() >= 2,
        warnings_for(c, true, system_level)[0] == data_loss_warning(),
        warnings_for(c, true, system_level)[1] == root_target_warning(),
{
}

} // verus!
