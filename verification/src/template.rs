//! Rendering of the files of a new mod skeleton.
//!
//! Each template function returns a [`ModFile`]: a path relative to
//! the mod root and the full rendered content. [`create_mod_files`]
//! assembles the whole plan; the surrounding binary creates the
//! directories, writes the files, and initializes the git repository.

use vstd::prelude::*;
use vstd::string::*;
use crate::casing::kebab_of;
use crate::casing::pascal_of;
use crate::casing::snake_of;
use crate::casing::to_kebab_case;
use crate::casing::to_pascal_case;
use crate::casing::to_snake_case;
use crate::text::concat2;
use crate::text::concat3;
use crate::text::join_char;
use crate::text::join_path;
use crate::text::join_path_spec;
use crate::text::join_spec;
use crate::text::lemma_views_of_drop_last;
use crate::text::split_char;
use crate::text::split_spec;

verus! {

/// The fields a new mod is scaffolded from.
#[derive(Debug, Clone)]
pub struct NewArgs {
    pub name: String,
    pub package_name: String,
    pub version: String,
    pub description: String,
    pub directory: String,
}

/// One file of the skeleton: a path relative to the mod root, and the
/// full content to write there.
#[derive(Debug, Clone)]
pub struct ModFile {
    pub path: String,
    pub content: String,
}

/// The whole skeleton: the root directory — which also becomes a git
/// repository — and the files to create under it, in order.
#[derive(Debug, Clone)]
pub struct ModPlan {
    pub root_dir: String,
    pub files: Vec<ModFile>,
}

/// How one character is written inside a JSON string literal.
pub open spec fn json_escape_char_spec(c: char) -> Seq<char> {
    if c == '"' {
        seq!['\\', '"']
    } else if c == '\\' {
        seq!['\\', '\\']
    } else if c == '\n' {
        seq!['\\', 'n']
    } else if c == '\r' {
        seq!['\\', 'r']
    } else if c == '\t' {
        seq!['\\', 't']
    } else {
        seq![c]
    }
}

/// `s` written as the body of a JSON string literal.
pub open spec fn json_escape_spec(s: Seq<char>) -> Seq<char>
    decreases s.len(),
{
    if s.len() == 0 {
        Seq::<char>::empty()
    } else {
        json_escape_spec(s.drop_last()) + json_escape_char_spec(s.last())
    }
}

/// Escapes `s` for use inside a JSON string literal.
pub fn json_escape(s: &str) -> (r: String)
    ensures
        r@ == json_escape_spec(s@),
{
    let n = s.unicode_len();
    let mut r = String::new();
    proof {
        assert(s@.take(0) =~= Seq::<char>::empty());
    }
    let mut i: usize = 0;
    while i < n
        invariant
            i <= n,
            n == s@.len(),
            r@ == json_escape_spec(s@.take(i as int)),
        decreases n - i,
    {
        let c = s.get_char(i);
        if c == '"' {
            r.append("\\\"");
        } else if c == '\\' {
            r.append("\\\\");
        } else if c == '\n' {
            r.append("\\n");
        } else if c == '\r' {
            r.append("\\r");
        } else if c == '\t' {
            r.append("\\t");
        } else {
            r.push(c);
        }
        proof {
            reveal_strlit("\\\"");
            reveal_strlit("\\\\");
            reveal_strlit("\\n");
            reveal_strlit("\\r");
            reveal_strlit("\\t");
            assert(s@.take(i as int + 1).drop_last() =~= s@.take(i as int));
            assert(s@.take(i as int + 1).last() == s@[i as int]);
            assert(r@ =~= json_escape_spec(s@.take(i as int + 1)));
        }
        i += 1;
    }
    proof {
        assert(s@.take(n as int) =~= s@);
    }
    r
}

/// The content of `mod.json`: the mod's name, version, package name
/// and description as a JSON object.
pub open spec fn mod_conf_json_spec(
    name: Seq<char>,
    version: Seq<char>,
    package_name: Seq<char>,
    description: Seq<char>,
) -> Seq<char> {
    "{\n  \"name\": \""@ + json_escape_spec(name) + "\",\n  \"version\": \""@ + json_escape_spec(
        version,
    ) + "\",\n  \"package_name\": \""@ + json_escape_spec(package_name)
        + "\",\n  \"description\": \""@ + json_escape_spec(description) + "\"\n}\n"@
}

/// Renders `mod.json` for the new mod.
pub fn template_mod_conf(args: &NewArgs) -> (f: ModFile)
    ensures
        f.path@ == "mod.json"@,
        f.content@ == mod_conf_json_spec(
            args.name@,
            args.version@,
            args.package_name@,
            args.description@,
        ),
{
    let mut c = "{\n  \"name\": \"".to_owned();
    c.append(json_escape(args.name.as_str()).as_str());
    c.append("\",\n  \"version\": \"");
    c.append(json_escape(args.version.as_str()).as_str());
    c.append("\",\n  \"package_name\": \"");
    c.append(json_escape(args.package_name.as_str()).as_str());
    c.append("\",\n  \"description\": \"");
    c.append(json_escape(args.description.as_str()).as_str());
    c.append("\"\n}\n");
    ModFile { path: "mod.json".to_owned(), content: c }
}

/// The path of the script entrypoint: `scripts/mod_<snake-name>.py`.
pub open spec fn script_file_path_spec(name: Seq<char>) -> Seq<char> {
    "scripts/mod_"@ + snake_of(name) + ".py"@
}

/// The content of the script entrypoint: `init` and `fini` stubs that
/// greet with the mod's name.
pub open spec fn script_entrypoint_spec(name: Seq<char>) -> Seq<char> {
    "def init():\n    print(\"Hello world from "@ + name
        + "\")\n\ndef fini():\n    print(\"Good bye world from "@ + name + "\")\n"@
}

/// Renders the Python-style script entrypoint stub.
pub fn template_script_entrypoint(args: &NewArgs) -> (f: ModFile)
    ensures
        f.path@ == script_file_path_spec(args.name@),
        f.content@ == script_entrypoint_spec(args.name@),
{
    let snake = to_snake_case(args.name.as_str());
    let path = concat3("scripts/mod_", snake.as_str(), ".py");
    let mut c = "def init():\n    print(\"Hello world from ".to_owned();
    c.append(args.name.as_str());
    c.append("\")\n\ndef fini():\n    print(\"Good bye world from ");
    c.append(args.name.as_str());
    c.append("\")\n");
    ModFile { path, content: c }
}

/// The content of the `.gitignore` of a new mod.
pub open spec fn git_ignore_spec() -> Seq<char> {
    "/.idea\n/.vscode\n/target\n.DS_Store\n"@
}

/// Renders the `.gitignore`.
pub fn template_git_ignore() -> (f: ModFile)
    ensures
        f.path@ == ".gitignore"@,
        f.content@ == git_ignore_spec(),
{
    ModFile {
        path: ".gitignore".to_owned(),
        content: "/.idea\n/.vscode\n/target\n.DS_Store\n".to_owned(),
    }
}

/// The package name without its last segment: the UI source lives in
/// the enclosing package.
pub open spec fn package_prefix_spec(package_name: Seq<char>) -> Seq<char> {
    join_spec(split_spec(package_name, '.').drop_last(), '.')
}

/// The directory of the UI source stub: `ui/src` plus one directory
/// per segment of the enclosing package.
pub open spec fn ui_source_dir_spec(package_name: Seq<char>) -> Seq<char> {
    let prefix = split_spec(package_name, '.').drop_last();
    if prefix.len() == 0 {
        "ui/src"@
    } else {
        "ui/src/"@ + join_spec(prefix, '/')
    }
}

/// The path of the UI source stub: the source directory plus
/// `<PascalName>.as`.
pub open spec fn ui_entrypoint_path_spec(package_name: Seq<char>, name: Seq<char>) -> Seq<char> {
    ui_source_dir_spec(package_name) + "/"@ + pascal_of(name) + ".as"@
}

/// The content of the UI source stub: an empty view subclass inside
/// the enclosing package.
pub open spec fn ui_entrypoint_spec(package_name: Seq<char>, name: Seq<char>) -> Seq<char> {
    "package "@ + package_prefix_spec(package_name)
        + " {\n  import net.wg.infrastructure.base.AbstractView;\n\n  class "@ + pascal_of(name)
        + " extends AbstractView {\n\n  }\n}\n"@
}

/// Renders the UI source stub.
pub fn template_ui_entrypoint(args: &NewArgs) -> (f: ModFile)
    ensures
        f.path@ == ui_entrypoint_path_spec(args.package_name@, args.name@),
        f.content@ == ui_entrypoint_spec(args.package_name@, args.name@),
{
    let mut tokens = split_char(args.package_name.as_str(), '.');
    proof {
        lemma_views_of_drop_last(tokens@);
    }
    tokens.pop();
    let prefix = join_char(&tokens, '.');
    let pascal = to_pascal_case(args.name.as_str());
    let dir = if tokens.len() == 0 {
        "ui/src".to_owned()
    } else {
        concat2("ui/src/", join_char(&tokens, '/').as_str())
    };
    let mut path = concat3(dir.as_str(), "/", pascal.as_str());
    path.append(".as");
    let mut c = "package ".to_owned();
    c.append(prefix.as_str());
    c.append(" {\n  import net.wg.infrastructure.base.AbstractView;\n\n  class ");
    c.append(pascal.as_str());
    c.append(" extends AbstractView {\n\n  }\n}\n");
    ModFile { path, content: c }
}

/// The content of the UI compiler config, `ui/asconfigc.json`.
pub open spec fn ui_config_spec() -> Seq<char> {
    "{\n  \"config\": \"flex\",\n  \"compilerOptions\": {\n    \"output\": \"\",\n    \"source-path\": []\n  },\n  \"mainClass\": \"\"\n}\n"@
}

/// Renders the UI compiler config.
pub fn template_ui_config() -> (f: ModFile)
    ensures
        f.path@ == "ui/asconfigc.json"@,
        f.content@ == ui_config_spec(),
{
    ModFile {
        path: "ui/asconfigc.json".to_owned(),
        content:
            "{\n  \"config\": \"flex\",\n  \"compilerOptions\": {\n    \"output\": \"\",\n    \"source-path\": []\n  },\n  \"mainClass\": \"\"\n}\n".to_owned(),
    }
}

/// Plans the whole mod skeleton: the root directory named after the
/// kebab-case mod name, and the five files of a new mod in creation
/// order. The caller writes them and initializes the root as a git
/// repository.
pub fn create_mod_files(args: &NewArgs) -> (plan: ModPlan)
    ensures
        plan.root_dir@ == join_path_spec(args.directory@, kebab_of(args.name@)),
        plan.files@.len() == 5,
        plan.files@[0].path@ == "mod.json"@,
        plan.files@[0].content@ == mod_conf_json_spec(
            args.name@,
            args.version@,
            args.package_name@,
            args.description@,
        ),
        plan.files@[1].path@ == script_file_path_spec(args.name@),
        plan.files@[1].content@ == script_entrypoint_spec(args.name@),
        plan.files@[2].path@ == ui_entrypoint_path_spec(args.package_name@, args.name@),
        plan.files@[2].content@ == ui_entrypoint_spec(args.package_name@, args.name@),
        plan.files@[3].path@ == "ui/asconfigc.json"@,
        plan.files@[3].content@ == ui_config_spec(),
        plan.files@[4].path@ == ".gitignore"@,
        plan.files@[4].content@ == git_ignore_spec(),
{
    let kebab = to_kebab_case(args.name.as_str());
    let root_dir = join_path(args.directory.as_str(), kebab.as_str());
    let mut files: Vec<ModFile> = Vec::new();
    files.push(template_mod_conf(args));
    files.push(template_script_entrypoint(args));
    files.push(template_ui_entrypoint(args));
    files.push(template_ui_config());
    files.push(template_git_ignore());
    ModPlan { root_dir, files }
}

/// The content of the version manager's `settings.txt`, pointing its
/// root and its Node directory at the installation directory.
pub open spec fn nvm_settings_spec(nvm_dir: Seq<char>) -> Seq<char> {
    "root: "@ + nvm_dir + "\n\npath: "@ + nvm_dir + "\\nodejs\n\narch: 64\n\nproxy: none\n"@
}

/// Renders the version manager's settings file for its directory.
pub fn template_nvm_config(nvm_dir: &str) -> (f: ModFile)
    ensures
        f.path@ == "settings.txt"@,
        f.content@ == nvm_settings_spec(nvm_dir@),
{
    let mut c = "root: ".to_owned();
    c.append(nvm_dir);
    c.append("\n\npath: ");
    c.append(nvm_dir);
    c.append("\\nodejs\n\narch: 64\n\nproxy: none\n");
    ModFile { path: "settings.txt".to_owned(), content: c }
}

/// The content of the shell shim that loads and forwards to nvm.
pub open spec fn nvm_shim_spec() -> Seq<char> {
    "[ -s \"$NVM_DIR/nvm.sh\" ] && \\. \"$NVM_DIR/nvm.sh\"  # This loads nvm\n[ -s \"$NVM_DIR/bash_completion\" ] && \\. \"$NVM_DIR/bash_completion\"  # This loads nvm bash_completion\nnvm $@"@
}

/// Renders the shell shim under the given file name.
pub fn create_nvm_executable(name: &str) -> (f: ModFile)
    ensures
        f.path@ == name@,
        f.content@ == nvm_shim_spec(),
{
    ModFile {
        path: name.to_owned(),
        content:
            "[ -s \"$NVM_DIR/nvm.sh\" ] && \\. \"$NVM_DIR/nvm.sh\"  # This loads nvm\n[ -s \"$NVM_DIR/bash_completion\" ] && \\. \"$NVM_DIR/bash_completion\"  # This loads nvm bash_completion\nnvm $@".to_owned(),
    }
}

} // verus!
