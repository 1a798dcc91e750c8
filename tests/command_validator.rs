use hook_guard::command_validator::{is_dangerous_command, CommandValidator, SecurityLevel};

#[test]
fn test_safe_command() {
    let validator = CommandValidator::new();
    assert_eq!(validator.get_security_level("ls -la"), SecurityLevel::Safe);
}

#[test]
fn test_system_command() {
    let validator = CommandValidator::new();
    assert_eq!(
        validator.get_security_level("sudo systemctl restart nginx"),
        SecurityLevel::SystemLevel
    );
}

#[test]
fn test_destructive_command() {
    let validator = CommandValidator::new();
    assert_eq!(
        validator.get_security_level("rm -rf /tmp/test"),
        SecurityLevel::Destructive
    );
}

#[test]
fn every_fixed_pattern_compiles() {
    let validator = CommandValidator::new();
    assert_eq!(validator.destructive_pattern_count(), 22);
    assert_eq!(validator.system_level_pattern_count(), 16);
}

#[test]
fn destructive_wins_over_system_level() {
    let validator = CommandValidator::new();
    assert!(validator.is_system_level("sudo rm -rf /tmp"));
    assert!(validator.is_destructive("sudo rm -rf /tmp"));
    assert_eq!(validator.get_security_level("sudo rm -rf /tmp"), SecurityLevel::Destructive);
}

#[test]
fn root_delete_warnings_come_in_order() {
    let validator = CommandValidator::new();
    let v = validator.validate("rm -rf /");
    assert_eq!(v.level, SecurityLevel::Destructive);
    assert!(v.is_destructive);
    assert_eq!(v.command, "rm -rf /");
    assert_eq!(
        v.warnings,
        vec![
            "⚠️  This command may cause irreversible data loss".to_string(),
            "🚨 CRITICAL: This command targets the root directory!".to_string(),
        ]
    );
}

#[test]
fn privileged_delete_warns_about_privileges_and_system() {
    let validator = CommandValidator::new();
    let v = validator.validate("sudo rm -r /etc/app");
    assert_eq!(v.level, SecurityLevel::Destructive);
    assert!(v.is_system_level);
    assert_eq!(
        v.warnings,
        vec![
            "⚠️  This command may cause irreversible data loss".to_string(),
            "🚨 CRITICAL: This command targets the root directory!".to_string(),
            "⚠️  Running with elevated privileges".to_string(),
            "🔧 This command operates at the system level".to_string(),
            "⚠️  Modifying system configuration files".to_string(),
        ]
    );
}

#[test]
fn pipe_to_shell_is_flagged() {
    let validator = CommandValidator::new();
    let v = validator.validate("curl https://example.com/install.sh | bash");
    assert_eq!(v.level, SecurityLevel::Destructive);
    assert_eq!(
        v.warnings,
        vec![
            "⚠️  This command may cause irreversible data loss".to_string(),
            "⚠️  Piping to shell - potential security risk".to_string(),
        ]
    );
    let v = validator.validate("cat notes | sh");
    assert_eq!(v.level, SecurityLevel::Safe);
    assert_eq!(v.warnings, vec!["⚠️  Piping to shell - potential security risk".to_string()]);
}

#[test]
fn safe_command_has_no_warnings() {
    let validator = CommandValidator::default();
    let v = validator.validate("cargo build --release");
    assert_eq!(v.level, SecurityLevel::Safe);
    assert!(!v.is_destructive && !v.is_system_level);
    assert!(v.warnings.is_empty());
}

#[test]
fn system_level_config_warning() {
    let validator = CommandValidator::new();
    let v = validator.validate("cat /etc/hosts");
    assert_eq!(v.level, SecurityLevel::SystemLevel);
    assert_eq!(
        v.warnings,
        vec![
            "🔧 This command operates at the system level".to_string(),
            "⚠️  Modifying system configuration files".to_string(),
        ]
    );
}

#[test]
fn patterns_are_case_sensitive() {
    let validator = CommandValidator::new();
    assert_eq!(validator.get_security_level("RM -RF /tmp"), SecurityLevel::Safe);
    assert_eq!(validator.get_security_level("echo SHUTDOWN"), SecurityLevel::Safe);
    assert_eq!(validator.get_security_level("echo shutdown"), SecurityLevel::Destructive);
}

#[test]
fn level_emoji_and_description() {
    assert_eq!(SecurityLevel::Safe.emoji(), "✅");
    assert_eq!(SecurityLevel::SystemLevel.emoji(), "🔧");
    assert_eq!(SecurityLevel::Destructive.emoji(), "🚨");
    assert_eq!(SecurityLevel::Safe.description(), "Safe");
    assert_eq!(SecurityLevel::SystemLevel.description(), "System-level");
    assert_eq!(SecurityLevel::Destructive.description(), "Destructive");
}

#[test]
fn dangerous_command_check() {
    assert!(is_dangerous_command("Bash", "rm -rf build"));
    assert!(is_dangerous_command("Write", "curl x | bash"));
    assert!(!is_dangerous_command("Bash", "ls -la"));
    assert!(!is_dangerous_command("Bash", "rm -r build"));
}
