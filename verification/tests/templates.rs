use modcli::template::create_mod_files;
use modcli::template::create_nvm_executable;
use modcli::template::json_escape;
use modcli::template::template_mod_conf;
use modcli::template::template_nvm_config;
use modcli::template::template_ui_entrypoint;
use modcli::template::NewArgs;
use modcli::text::join_char;
use modcli::text::split_char;
use modcli::text::starts_with;
use modcli::text::str_eq;
use modcli::text::strip_prefix;
use modcli::text::strip_suffix;
use modcli::text::trim;

fn my_mod_args() -> NewArgs {
    NewArgs {
        name: "MyMod".to_string(),
        package_name: "com.example.mod".to_string(),
        version: "1.0.0".to_string(),
        description: "A test mod".to_string(),
        directory: "/tmp/mods".to_string(),
    }
}

#[test]
fn scaffold_plans_the_five_files() {
    let plan = create_mod_files(&my_mod_args());
    assert_eq!(plan.root_dir, "/tmp/mods/my-mod");
    assert_eq!(plan.files.len(), 5);
    assert_eq!(plan.files[0].path, "mod.json");
    assert_eq!(plan.files[1].path, "scripts/mod_my_mod.py");
    assert_eq!(plan.files[2].path, "ui/src/com/example/MyMod.as");
    assert_eq!(plan.files[3].path, "ui/asconfigc.json");
    assert_eq!(plan.files[4].path, ".gitignore");
}

#[test]
fn scaffold_mod_json_holds_the_literal_name() {
    let plan = create_mod_files(&my_mod_args());
    assert!(plan.files[0].content.contains("\"name\": \"MyMod\""));
    assert!(plan.files[0].content.contains("\"version\": \"1.0.0\""));
    assert!(plan.files[0].content.contains("\"package_name\": \"com.example.mod\""));
}

#[test]
fn scaffold_script_defines_init_and_fini() {
    let plan = create_mod_files(&my_mod_args());
    let script = &plan.files[1].content;
    assert!(script.contains("def init():"));
    assert!(script.contains("def fini():"));
    assert!(script.contains("Hello world from MyMod"));
    assert!(script.contains("Good bye world from MyMod"));
}

#[test]
fn scaffold_ui_source_declares_the_view_subclass() {
    let plan = create_mod_files(&my_mod_args());
    let ui = &plan.files[2].content;
    assert!(ui.contains("package com.example {"));
    assert!(ui.contains("class MyMod extends AbstractView"));
    assert!(ui.contains("import net.wg.infrastructure.base.AbstractView;"));
}

#[test]
fn scaffold_ui_config_uses_flex() {
    let plan = create_mod_files(&my_mod_args());
    assert!(plan.files[3].content.contains("\"config\": \"flex\""));
}

#[test]
fn scaffold_git_ignore_content() {
    let plan = create_mod_files(&my_mod_args());
    assert_eq!(plan.files[4].content, "/.idea\n/.vscode\n/target\n.DS_Store\n");
}

#[test]
fn scaffold_package_without_dots_lands_in_ui_src() {
    let mut args = my_mod_args();
    args.package_name = "mod".to_string();
    let f = template_ui_entrypoint(&args);
    assert_eq!(f.path, "ui/src/MyMod.as");
    assert!(f.content.starts_with("package  {"));
}

#[test]
fn scaffold_converts_multi_word_names() {
    let mut args = my_mod_args();
    args.name = "cool mod".to_string();
    let plan = create_mod_files(&args);
    assert_eq!(plan.root_dir, "/tmp/mods/cool-mod");
    assert_eq!(plan.files[1].path, "scripts/mod_cool_mod.py");
    assert_eq!(plan.files[2].path, "ui/src/com/example/CoolMod.as");
    assert!(plan.files[2].content.contains("class CoolMod extends AbstractView"));
    assert!(plan.files[1].content.contains("Hello world from cool mod"));
}

#[test]
fn mod_json_escapes_quotes_in_fields() {
    let mut args = my_mod_args();
    args.description = "say \"hi\"".to_string();
    let f = template_mod_conf(&args);
    assert!(f.content.contains("\"description\": \"say \\\"hi\\\"\""));
}

#[test]
fn json_escape_handles_specials() {
    assert_eq!(json_escape("plain"), "plain");
    assert_eq!(json_escape("a\"b\\c\nd"), "a\\\"b\\\\c\\nd");
    assert_eq!(json_escape(""), "");
}

#[test]
fn nvm_settings_point_at_the_install_dir() {
    let f = template_nvm_config("/opt/nvm");
    assert_eq!(f.path, "settings.txt");
    assert_eq!(
        f.content,
        "root: /opt/nvm\n\npath: /opt/nvm\\nodejs\n\narch: 64\n\nproxy: none\n"
    );
}

#[test]
fn nvm_shim_loads_and_forwards() {
    let f = create_nvm_executable("nvm");
    assert_eq!(f.path, "nvm");
    assert!(f.content.contains("$NVM_DIR/nvm.sh"));
    assert!(f.content.ends_with("nvm $@"));
}

#[test]
fn trim_removes_surrounding_whitespace() {
    assert_eq!(trim("  a b \n"), "a b");
    assert_eq!(trim("\t\r\n "), "");
    assert_eq!(trim("no-space"), "no-space");
}

#[test]
fn strip_prefix_and_suffix_only_when_present() {
    assert_eq!(strip_prefix("conda 23.1.0", "conda "), "23.1.0");
    assert_eq!(strip_prefix("23.1.0", "conda "), "23.1.0");
    assert_eq!(strip_suffix("v18 (note)", " (note)"), "v18");
    assert_eq!(strip_suffix("v18", " (note)"), "v18");
}

#[test]
fn split_and_join_round_trip() {
    let parts = split_char("com.example.mod", '.');
    assert_eq!(parts, vec!["com".to_string(), "example".to_string(), "mod".to_string()]);
    assert_eq!(join_char(&parts, '.'), "com.example.mod");
    assert_eq!(split_char("", '.'), vec![String::new()]);
    assert_eq!(split_char("a..b", '.'), vec!["a".to_string(), String::new(), "b".to_string()]);
}

#[test]
fn string_predicates() {
    assert!(str_eq("new", "new"));
    assert!(!str_eq("new", "news"));
    assert!(starts_with("conda 23", "conda "));
    assert!(!starts_with("con", "conda "));
}
