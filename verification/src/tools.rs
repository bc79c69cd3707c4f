//! The tools that the server offers: the call that a request names, and
//! the list that describes them.
use vstd::prelude::*;
use vstd::string::*;

use crate::args::{ArgValue, member, text_items, arg_str, arg_str_opt, arg_bool, arg_u32, arg_u64_opt, arg_str_array, str_member, bool_member, u64_member, str_items_member, missing_argument_message};
use crate::text::{str_eq, owned, concat2, views};

verus! {

/// A tool call with its arguments, ready to be carried out.
#[allow(inconsistent_fields)]
pub enum ToolCall {
    FsReadFile { path: String },
    FsWriteFile { path: String, content: String },
    FsListDirectory { path: String },
    FsCreateDirectory { path: String },
    FsDeletePath { path: String },
    FsMovePath { source: String, destination: String },
    FsSearchFiles { path: String, pattern: String },
    FsEditFile { path: String, old_str: String, new_str: String },
    FsGrepContent { path: String, pattern: String },
    GitClone { url: String, destination: String, branch: Option<String> },
    GitStatus { repo_path: String },
    GitAdd { repo_path: String, files: Vec<String> },
    GitCommit { repo_path: String, message: String },
    GitPush { repo_path: String, remote: Option<String>, branch: Option<String> },
    GitPull { repo_path: String, remote: Option<String>, branch: Option<String> },
    GitBranchList { repo_path: String },
    GitCheckout { repo_path: String, branch: String, create: bool },
    GitDiff { repo_path: String, staged: bool },
    GitLog { repo_path: String, limit: u32 },
    ExecCommand { repo_path: String, command: String, timeout_secs: Option<u64> },
}

/// The model of a tool call.
#[allow(inconsistent_fields)]
pub enum ToolCallModel {
    FsReadFile { path: Seq<char> },
    FsWriteFile { path: Seq<char>, content: Seq<char> },
    FsListDirectory { path: Seq<char> },
    FsCreateDirectory { path: Seq<char> },
    FsDeletePath { path: Seq<char> },
    FsMovePath { source: Seq<char>, destination: Seq<char> },
    FsSearchFiles { path: Seq<char>, pattern: Seq<char> },
    FsEditFile { path: Seq<char>, old_str: Seq<char>, new_str: Seq<char> },
    FsGrepContent { path: Seq<char>, pattern: Seq<char> },
    GitClone { url: Seq<char>, destination: Seq<char>, branch: Option<Seq<char>> },
    GitStatus { repo_path: Seq<char> },
    GitAdd { repo_path: Seq<char>, files: Seq<Seq<char>> },
    GitCommit { repo_path: Seq<char>, message: Seq<char> },
    GitPush { repo_path: Seq<char>, remote: Option<Seq<char>>, branch: Option<Seq<char>> },
    GitPull { repo_path: Seq<char>, remote: Option<Seq<char>>, branch: Option<Seq<char>> },
    GitBranchList { repo_path: Seq<char> },
    GitCheckout { repo_path: Seq<char>, branch: Seq<char>, create: bool },
    GitDiff { repo_path: Seq<char>, staged: bool },
    GitLog { repo_path: Seq<char>, limit: u32 },
    ExecCommand { repo_path: Seq<char>, command: Seq<char>, timeout_secs: Option<u64> },
}

/// The view of an optional string.
pub open spec fn opt_view(o: Option<String>) -> Option<Seq<char>> {
    match o {
        Some(s) => Some(s@),
        None => None,
    }
}

impl View for ToolCall {
    type V = ToolCallModel;

    open spec fn view(&self) -> ToolCallModel {
        match self {
            ToolCall::FsReadFile { path } => ToolCallModel::FsReadFile { path: path@ },
            ToolCall::FsWriteFile { path, content } => ToolCallModel::FsWriteFile { path: path@, content: content@ },
            ToolCall::FsListDirectory { path } => ToolCallModel::FsListDirectory { path: path@ },
            ToolCall::FsCreateDirectory { path } => ToolCallModel::FsCreateDirectory { path: path@ },
            ToolCall::FsDeletePath { path } => ToolCallModel::FsDeletePath { path: path@ },
            ToolCall::FsMovePath { source, destination } => ToolCallModel::FsMovePath { source: source@, destination: destination@ },
            ToolCall::FsSearchFiles { path, pattern } => ToolCallModel::FsSearchFiles { path: path@, pattern: pattern@ },
            ToolCall::FsEditFile { path, old_str, new_str } => ToolCallModel::FsEditFile { path: path@, old_str: old_str@, new_str: new_str@ },
            ToolCall::FsGrepContent { path, pattern } => ToolCallModel::FsGrepContent { path: path@, pattern: pattern@ },
            ToolCall::GitClone { url, destination, branch } => ToolCallModel::GitClone { url: url@, destination: destination@, branch: opt_view(*branch) },
            ToolCall::GitStatus { repo_path } => ToolCallModel::GitStatus { repo_path: repo_path@ },
            ToolCall::GitAdd { repo_path, files } => ToolCallModel::GitAdd { repo_path: repo_path@, files: views(files@) },
            ToolCall::GitCommit { repo_path, message } => ToolCallModel::GitCommit { repo_path: repo_path@, message: message@ },
            ToolCall::GitPush { repo_path, remote, branch } => ToolCallModel::GitPush { repo_path: repo_path@, remote: opt_view(*remote), branch: opt_view(*branch) },
            ToolCall::GitPull { repo_path, remote, branch } => ToolCallModel::GitPull { repo_path: repo_path@, remote: opt_view(*remote), branch: opt_view(*branch) },
            ToolCall::GitBranchList { repo_path } => ToolCallModel::GitBranchList { repo_path: repo_path@ },
            ToolCall::GitCheckout { repo_path, branch, create } => ToolCallModel::GitCheckout { repo_path: repo_path@, branch: branch@, create: *create },
            ToolCall::GitDiff { repo_path, staged } => ToolCallModel::GitDiff { repo_path: repo_path@, staged: *staged },
            ToolCall::GitLog { repo_path, limit } => ToolCallModel::GitLog { repo_path: repo_path@, limit: *limit },
            ToolCall::ExecCommand { repo_path, command, timeout_secs } => ToolCallModel::ExecCommand { repo_path: repo_path@, command: command@, timeout_secs: *timeout_secs },
        }
    }
}

/// The message for a tool name that the server does not know.
pub open spec fn unknown_tool_message(name: Seq<char>) -> Seq<char> {
    "unknown tool: "@ + name
}

/// The call that a tool name and its arguments ask for: the first required
/// string argument that is missing gives an error, as does a name that is
/// no tool.  The shell tool is a tool only when `exec_enabled` holds.
pub open spec fn dispatch_model(name: Seq<char>, args: ArgValue, exec_enabled: bool) -> Result<ToolCallModel, Seq<char>> {
    if name == "fs_read_file"@ {
        match str_member(args, "path"@) {
            None => Err(missing_argument_message("path"@)),
            Some(path) => {
                Ok(ToolCallModel::FsReadFile { path })
            },
        }
    } else if name == "fs_write_file"@ {
        match str_member(args, "path"@) {
            None => Err(missing_argument_message("path"@)),
            Some(path) => {
                match str_member(args, "content"@) {
                    None => Err(missing_argument_message("content"@)),
                    Some(content) => {
                        Ok(ToolCallModel::FsWriteFile { path, content })
                    },
                }
            },
        }
    } else if name == "fs_list_directory"@ {
        match str_member(args, "path"@) {
            None => Err(missing_argument_message("path"@)),
            Some(path) => {
                Ok(ToolCallModel::FsListDirectory { path })
            },
        }
    } else if name == "fs_create_directory"@ {
        match str_member(args, "path"@) {
            None => Err(missing_argument_message("path"@)),
            Some(path) => {
                Ok(ToolCallModel::FsCreateDirectory { path })
            },
        }
    } else if name == "fs_delete_path"@ {
        match str_member(args, "path"@) {
            None => Err(missing_argument_message("path"@)),
            Some(path) => {
                Ok(ToolCallModel::FsDeletePath { path })
            },
        }
    } else if name == "fs_move_path"@ {
        match str_member(args, "source"@) {
            None => Err(missing_argument_message("source"@)),
            Some(source) => {
                match str_member(args, "destination"@) {
                    None => Err(missing_argument_message("destination"@)),
                    Some(destination) => {
                        Ok(ToolCallModel::FsMovePath { source, destination })
                    },
                }
            },
        }
    } else if name == "fs_search_files"@ {
        match str_member(args, "path"@) {
            None => Err(missing_argument_message("path"@)),
            Some(path) => {
                match str_member(args, "pattern"@) {
                    None => Err(missing_argument_message("pattern"@)),
                    Some(pattern) => {
                        Ok(ToolCallModel::FsSearchFiles { path, pattern })
                    },
                }
            },
        }
    } else if name == "fs_edit_file"@ {
        match str_member(args, "path"@) {
            None => Err(missing_argument_message("path"@)),
            Some(path) => {
                match str_member(args, "old_str"@) {
                    None => Err(missing_argument_message("old_str"@)),
                    Some(old_str) => {
                        match str_member(args, "new_str"@) {
                            None => Err(missing_argument_message("new_str"@)),
                            Some(new_str) => {
                                Ok(ToolCallModel::FsEditFile { path, old_str, new_str })
                            },
                        }
                    },
                }
            },
        }
    } else if name == "fs_grep_content"@ {
        match str_member(args, "path"@) {
            None => Err(missing_argument_message("path"@)),
            Some(path) => {
                match str_member(args, "pattern"@) {
                    None => Err(missing_argument_message("pattern"@)),
                    Some(pattern) => {
                        Ok(ToolCallModel::FsGrepContent { path, pattern })
                    },
                }
            },
        }
    } else if name == "git_clone"@ {
        match str_member(args, "url"@) {
            None => Err(missing_argument_message("url"@)),
            Some(url) => {
                match str_member(args, "destination"@) {
                    None => Err(missing_argument_message("destination"@)),
                    Some(destination) => {
                        Ok(ToolCallModel::GitClone { url, destination, branch: str_member(args, "branch"@) })
                    },
                }
            },
        }
    } else if name == "git_status"@ {
        match str_member(args, "repo_path"@) {
            None => Err(missing_argument_message("repo_path"@)),
            Some(repo_path) => {
                Ok(ToolCallModel::GitStatus { repo_path })
            },
        }
    } else if name == "git_add"@ {
        match str_member(args, "repo_path"@) {
            None => Err(missing_argument_message("repo_path"@)),
            Some(repo_path) => {
                Ok(ToolCallModel::GitAdd { repo_path, files: str_items_member(args, "files"@) })
            },
        }
    } else if name == "git_commit"@ {
        match str_member(args, "repo_path"@) {
            None => Err(missing_argument_message("repo_path"@)),
            Some(repo_path) => {
                match str_member(args, "message"@) {
                    None => Err(missing_argument_message("message"@)),
                    Some(message) => {
                        Ok(ToolCallModel::GitCommit { repo_path, message })
                    },
                }
            },
        }
    } else if name == "git_push"@ {
        match str_member(args, "repo_path"@) {
            None => Err(missing_argument_message("repo_path"@)),
            Some(repo_path) => {
                Ok(ToolCallModel::GitPush { repo_path, remote: str_member(args, "remote"@), branch: str_member(args, "branch"@) })
            },
        }
    } else if name == "git_pull"@ {
        match str_member(args, "repo_path"@) {
            None => Err(missing_argument_message("repo_path"@)),
            Some(repo_path) => {
                Ok(ToolCallModel::GitPull { repo_path, remote: str_member(args, "remote"@), branch: str_member(args, "branch"@) })
            },
        }
    } else if name == "git_branch_list"@ {
        match str_member(args, "repo_path"@) {
            None => Err(missing_argument_message("repo_path"@)),
            Some(repo_path) => {
                Ok(ToolCallModel::GitBranchList { repo_path })
            },
        }
    } else if name == "git_checkout"@ {
        match str_member(args, "repo_path"@) {
            None => Err(missing_argument_message("repo_path"@)),
            Some(repo_path) => {
                match str_member(args, "branch"@) {
                    None => Err(missing_argument_message("branch"@)),
                    Some(branch) => {
                        Ok(ToolCallModel::GitCheckout { repo_path, branch, create: match bool_member(args, "create"@) { Some(b) => b, None => false } })
                    },
                }
            },
        }
    } else if name == "git_diff"@ {
        match str_member(args, "repo_path"@) {
            None => Err(missing_argument_message("repo_path"@)),
            Some(repo_path) => {
                Ok(ToolCallModel::GitDiff { repo_path, staged: match bool_member(args, "staged"@) { Some(b) => b, None => false } })
            },
        }
    } else if name == "git_log"@ {
        match str_member(args, "repo_path"@) {
            None => Err(missing_argument_message("repo_path"@)),
            Some(repo_path) => {
                Ok(ToolCallModel::GitLog { repo_path, limit: match u64_member(args, "limit"@) { Some(n) => (n % 0x1_0000_0000) as u32, None => 20u32 } })
            },
        }
    } else if name == "exec_command"@ && exec_enabled {
        match str_member(args, "repo_path"@) {
            None => Err(missing_argument_message("repo_path"@)),
            Some(repo_path) => {
                match str_member(args, "command"@) {
                    None => Err(missing_argument_message("command"@)),
                    Some(command) => {
                        Ok(ToolCallModel::ExecCommand { repo_path, command, timeout_secs: u64_member(args, "timeout_secs"@) })
                    },
                }
            },
        }
    } else {
        Err(unknown_tool_message(name))
    }
}

/// The call that the tool `name` with arguments `args` asks for; the shell
/// tool is offered only when `exec_enabled` holds.
pub fn dispatch(name: &str, args: &ArgValue, exec_enabled: bool) -> (r: Result<ToolCall, String>)
    ensures
        match r {
            Ok(c) => dispatch_model(name@, *args, exec_enabled) == Ok::<ToolCallModel, Seq<char>>(c@),
            Err(e) => dispatch_model(name@, *args, exec_enabled) == Err::<ToolCallModel, Seq<char>>(e@),
        },
{
    if str_eq(name, "fs_read_file") {
        let path = match arg_str(args, "path") { Ok(s) => owned(s), Err(e) => return Err(e) };
        Ok(ToolCall::FsReadFile { path })
    } else if str_eq(name, "fs_write_file") {
        let path = match arg_str(args, "path") { Ok(s) => owned(s), Err(e) => return Err(e) };
        let content = match arg_str(args, "content") { Ok(s) => owned(s), Err(e) => return Err(e) };
        Ok(ToolCall::FsWriteFile { path, content })
    } else if str_eq(name, "fs_list_directory") {
        let path = match arg_str(args, "path") { Ok(s) => owned(s), Err(e) => return Err(e) };
        Ok(ToolCall::FsListDirectory { path })
    } else if str_eq(name, "fs_create_directory") {
        let path = match arg_str(args, "path") { Ok(s) => owned(s), Err(e) => return Err(e) };
        Ok(ToolCall::FsCreateDirectory { path })
    } else if str_eq(name, "fs_delete_path") {
        let path = match arg_str(args, "path") { Ok(s) => owned(s), Err(e) => return Err(e) };
        Ok(ToolCall::FsDeletePath { path })
    } else if str_eq(name, "fs_move_path") {
        let source = match arg_str(args, "source") { Ok(s) => owned(s), Err(e) => return Err(e) };
        let destination = match arg_str(args, "destination") { Ok(s) => owned(s), Err(e) => return Err(e) };
        Ok(ToolCall::FsMovePath { source, destination })
    } else if str_eq(name, "fs_search_files") {
        let path = match arg_str(args, "path") { Ok(s) => owned(s), Err(e) => return Err(e) };
        let pattern = match arg_str(args, "pattern") { Ok(s) => owned(s), Err(e) => return Err(e) };
        Ok(ToolCall::FsSearchFiles { path, pattern })
    } else if str_eq(name, "fs_edit_file") {
        let path = match arg_str(args, "path") { Ok(s) => owned(s), Err(e) => return Err(e) };
        let old_str = match arg_str(args, "old_str") { Ok(s) => owned(s), Err(e) => return Err(e) };
        let new_str = match arg_str(args, "new_str") { Ok(s) => owned(s), Err(e) => return Err(e) };
        Ok(ToolCall::FsEditFile { path, old_str, new_str })
    } else if str_eq(name, "fs_grep_content") {
        let path = match arg_str(args, "path") { Ok(s) => owned(s), Err(e) => return Err(e) };
        let pattern = match arg_str(args, "pattern") { Ok(s) => owned(s), Err(e) => return Err(e) };
        Ok(ToolCall::FsGrepContent { path, pattern })
    } else if str_eq(name, "git_clone") {
        let url = match arg_str(args, "url") { Ok(s) => owned(s), Err(e) => return Err(e) };
        let destination = match arg_str(args, "destination") { Ok(s) => owned(s), Err(e) => return Err(e) };
        let branch = match arg_str_opt(args, "branch") { Some(s) => Some(owned(s)), None => None };
        Ok(ToolCall::GitClone { url, destination, branch })
    } else if str_eq(name, "git_status") {
        let repo_path = match arg_str(args, "repo_path") { Ok(s) => owned(s), Err(e) => return Err(e) };
        Ok(ToolCall::GitStatus { repo_path })
    } else if str_eq(name, "git_add") {
        let repo_path = match arg_str(args, "repo_path") { Ok(s) => owned(s), Err(e) => return Err(e) };
        let files = arg_str_array(args, "files");
        Ok(ToolCall::GitAdd { repo_path, files })
    } else if str_eq(name, "git_commit") {
        let repo_path = match arg_str(args, "repo_path") { Ok(s) => owned(s), Err(e) => return Err(e) };
        let message = match arg_str(args, "message") { Ok(s) => owned(s), Err(e) => return Err(e) };
        Ok(ToolCall::GitCommit { repo_path, message })
    } else if str_eq(name, "git_push") {
        let repo_path = match arg_str(args, "repo_path") { Ok(s) => owned(s), Err(e) => return Err(e) };
        let remote = match arg_str_opt(args, "remote") { Some(s) => Some(owned(s)), None => None };
        let branch = match arg_str_opt(args, "branch") { Some(s) => Some(owned(s)), None => None };
        Ok(ToolCall::GitPush { repo_path, remote, branch })
    } else if str_eq(name, "git_pull") {
        let repo_path = match arg_str(args, "repo_path") { Ok(s) => owned(s), Err(e) => return Err(e) };
        let remote = match arg_str_opt(args, "remote") { Some(s) => Some(owned(s)), None => None };
        let branch = match arg_str_opt(args, "branch") { Some(s) => Some(owned(s)), None => None };
        Ok(ToolCall::GitPull { repo_path, remote, branch })
    } else if str_eq(name, "git_branch_list") {
        let repo_path = match arg_str(args, "repo_path") { Ok(s) => owned(s), Err(e) => return Err(e) };
        Ok(ToolCall::GitBranchList { repo_path })
    } else if str_eq(name, "git_checkout") {
        let repo_path = match arg_str(args, "repo_path") { Ok(s) => owned(s), Err(e) => return Err(e) };
        let branch = match arg_str(args, "branch") { Ok(s) => owned(s), Err(e) => return Err(e) };
        let create = arg_bool(args, "create", false);
        Ok(ToolCall::GitCheckout { repo_path, branch, create })
    } else if str_eq(name, "git_diff") {
        let repo_path = match arg_str(args, "repo_path") { Ok(s) => owned(s), Err(e) => return Err(e) };
        let staged = arg_bool(args, "staged", false);
        Ok(ToolCall::GitDiff { repo_path, staged })
    } else if str_eq(name, "git_log") {
        let repo_path = match arg_str(args, "repo_path") { Ok(s) => owned(s), Err(e) => return Err(e) };
        let limit = arg_u32(args, "limit", 20);
        Ok(ToolCall::GitLog { repo_path, limit })
    } else if exec_enabled && str_eq(name, "exec_command") {
        let repo_path = match arg_str(args, "repo_path") { Ok(s) => owned(s), Err(e) => return Err(e) };
        let command = match arg_str(args, "command") { Ok(s) => owned(s), Err(e) => return Err(e) };
        let timeout_secs = arg_u64_opt(args, "timeout_secs");
        Ok(ToolCall::ExecCommand { repo_path, command, timeout_secs })
    } else {
        Err(concat2("unknown tool: ", name))
    }
}

/// The type of a tool parameter.
#[derive(Clone, Copy, PartialEq, Eq, Structural, Debug)]
pub enum ParamKind {
    /// A string.
    Text,
    /// A boolean.
    Flag,
    /// An integer.
    Integer,
    /// An array of strings.
    TextList,
}

/// One parameter of a tool.
pub struct ParamSpec {
    pub name: String,
    pub kind: ParamKind,
    pub description: Option<String>,
}

/// The description of a tool: its name, what it does, its parameters and
/// those of them that a call must give.
pub struct ToolSpec {
    pub name: String,
    pub description: String,
    pub params: Vec<ParamSpec>,
    pub required: Vec<String>,
}

/// The model of a parameter.
#[verifier::ext_equal]
pub struct ParamModel {
    pub name: Seq<char>,
    pub kind: ParamKind,
    pub description: Option<Seq<char>>,
}

/// The model of a tool description.
#[verifier::ext_equal]
pub struct ToolModel {
    pub name: Seq<char>,
    pub description: Seq<char>,
    pub params: Seq<ParamModel>,
    pub required: Seq<Seq<char>>,
}

impl View for ParamSpec {
    type V = ParamModel;

    open spec fn view(&self) -> ParamModel {
        ParamModel { name: self.name@, kind: self.kind, description: opt_view(self.description) }
    }
}

impl View for ToolSpec {
    type V = ToolModel;

    open spec fn view(&self) -> ToolModel {
        ToolModel {
            name: self.name@,
            description: self.description@,
            params: self.params@.map_values(|p: ParamSpec| p@),
            required: views(self.required@),
        }
    }
}

/// The views of a sequence of tool descriptions.
pub open spec fn tool_models(v: Seq<ToolSpec>) -> Seq<ToolModel> {
    v.map_values(|t: ToolSpec| t@)
}

/// The tools that the server offers, in the order it lists them.
pub open spec fn tool_table() -> Seq<ToolModel> {
    seq![
        ToolModel {
            name: "fs_read_file"@,
            description: "Read the full text content of a file within the repo storage area."@,
            params: seq![ParamModel { name: "path"@, kind: ParamKind::Text, description: Some("Path relative to the repo storage root."@) }],
            required: seq!["path"@],
        },
        ToolModel {
            name: "fs_write_file"@,
            description: "Write (create or overwrite) a text file within the repo storage area."@,
            params: seq![ParamModel { name: "path"@, kind: ParamKind::Text, description: None }, ParamModel { name: "content"@, kind: ParamKind::Text, description: None }],
            required: seq!["path"@, "content"@],
        },
        ToolModel {
            name: "fs_list_directory"@,
            description: "List files and subdirectories at a given path within the repo storage area."@,
            params: seq![ParamModel { name: "path"@, kind: ParamKind::Text, description: None }],
            required: seq!["path"@],
        },
        ToolModel {
            name: "fs_create_directory"@,
            description: "Create a directory (and any missing parents) within the repo storage area."@,
            params: seq![ParamModel { name: "path"@, kind: ParamKind::Text, description: None }],
            required: seq!["path"@],
        },
        ToolModel {
            name: "fs_delete_path"@,
            description: "Delete a file or directory (recursively) within the repo storage area."@,
            params: seq![ParamModel { name: "path"@, kind: ParamKind::Text, description: None }],
            required: seq!["path"@],
        },
        ToolModel {
            name: "fs_move_path"@,
            description: "Move or rename a file or directory within the repo storage area."@,
            params: seq![ParamModel { name: "source"@, kind: ParamKind::Text, description: None }, ParamModel { name: "destination"@, kind: ParamKind::Text, description: None }],
            required: seq!["source"@, "destination"@],
        },
        ToolModel {
            name: "fs_search_files"@,
            description: "Recursively search for files/directories whose name contains the given substring."@,
            params: seq![ParamModel { name: "path"@, kind: ParamKind::Text, description: Some("Directory to search within."@) }, ParamModel { name: "pattern"@, kind: ParamKind::Text, description: Some("Substring to match against file/directory names (case-insensitive)."@) }],
            required: seq!["path"@, "pattern"@],
        },
        ToolModel {
            name: "fs_edit_file"@,
            description: "Replace exactly one occurrence of old_str with new_str in a file within the repo storage area. Refused when old_str matches no location or more than one; widen old_str with surrounding context until it matches exactly one place. Use this for small edits instead of rewriting the whole file."@,
            params: seq![ParamModel { name: "path"@, kind: ParamKind::Text, description: None }, ParamModel { name: "old_str"@, kind: ParamKind::Text, description: Some("Exact text to replace; must occur exactly once in the file."@) }, ParamModel { name: "new_str"@, kind: ParamKind::Text, description: Some("Replacement text."@) }],
            required: seq!["path"@, "old_str"@, "new_str"@],
        },
        ToolModel {
            name: "fs_grep_content"@,
            description: "Search the contents of the files under a path for lines containing the given substring (case-insensitive), distinct from fs_search_files, which matches on names only. Reports each matching line with its file and line number, capped at 200 matches."@,
            params: seq![ParamModel { name: "path"@, kind: ParamKind::Text, description: Some("Directory to search within."@) }, ParamModel { name: "pattern"@, kind: ParamKind::Text, description: Some("Substring to look for in file contents (case-insensitive)."@) }],
            required: seq!["path"@, "pattern"@],
        },
        ToolModel {
            name: "git_clone"@,
            description: "Clone a git repository into the repo storage area. If the target is the configured Forgejo host, credentials are applied automatically — use a plain https:// URL with no embedded token or username."@,
            params: seq![ParamModel { name: "url"@, kind: ParamKind::Text, description: None }, ParamModel { name: "destination"@, kind: ParamKind::Text, description: Some("Relative path to clone into."@) }, ParamModel { name: "branch"@, kind: ParamKind::Text, description: Some("Optional branch to check out."@) }],
            required: seq!["url"@, "destination"@],
        },
        ToolModel {
            name: "git_status"@,
            description: "Show the working tree status of a repo."@,
            params: seq![ParamModel { name: "repo_path"@, kind: ParamKind::Text, description: None }],
            required: seq!["repo_path"@],
        },
        ToolModel {
            name: "git_add"@,
            description: "Stage files for commit. Omit 'files' to stage all changes."@,
            params: seq![ParamModel { name: "repo_path"@, kind: ParamKind::Text, description: None }, ParamModel { name: "files"@, kind: ParamKind::TextList, description: None }],
            required: seq!["repo_path"@],
        },
        ToolModel {
            name: "git_commit"@,
            description: "Commit currently staged changes."@,
            params: seq![ParamModel { name: "repo_path"@, kind: ParamKind::Text, description: None }, ParamModel { name: "message"@, kind: ParamKind::Text, description: None }],
            required: seq!["repo_path"@, "message"@],
        },
        ToolModel {
            name: "git_push"@,
            description: "Push local commits to a remote."@,
            params: seq![ParamModel { name: "repo_path"@, kind: ParamKind::Text, description: None }, ParamModel { name: "remote"@, kind: ParamKind::Text, description: Some("Defaults to 'origin'."@) }, ParamModel { name: "branch"@, kind: ParamKind::Text, description: None }],
            required: seq!["repo_path"@],
        },
        ToolModel {
            name: "git_pull"@,
            description: "Pull changes from a remote."@,
            params: seq![ParamModel { name: "repo_path"@, kind: ParamKind::Text, description: None }, ParamModel { name: "remote"@, kind: ParamKind::Text, description: Some("Defaults to 'origin'."@) }, ParamModel { name: "branch"@, kind: ParamKind::Text, description: None }],
            required: seq!["repo_path"@],
        },
        ToolModel {
            name: "git_branch_list"@,
            description: "List local and remote branches."@,
            params: seq![ParamModel { name: "repo_path"@, kind: ParamKind::Text, description: None }],
            required: seq!["repo_path"@],
        },
        ToolModel {
            name: "git_checkout"@,
            description: "Check out a branch, optionally creating it."@,
            params: seq![ParamModel { name: "repo_path"@, kind: ParamKind::Text, description: None }, ParamModel { name: "branch"@, kind: ParamKind::Text, description: None }, ParamModel { name: "create"@, kind: ParamKind::Flag, description: Some("Create the branch if it doesn't exist."@) }],
            required: seq!["repo_path"@, "branch"@],
        },
        ToolModel {
            name: "git_diff"@,
            description: "Show diff of unstaged (or staged) changes."@,
            params: seq![ParamModel { name: "repo_path"@, kind: ParamKind::Text, description: None }, ParamModel { name: "staged"@, kind: ParamKind::Flag, description: None }],
            required: seq!["repo_path"@],
        },
        ToolModel {
            name: "git_log"@,
            description: "Show recent commit history."@,
            params: seq![ParamModel { name: "repo_path"@, kind: ParamKind::Text, description: None }, ParamModel { name: "limit"@, kind: ParamKind::Integer, description: Some("Number of commits to show. Defaults to 20."@) }],
            required: seq!["repo_path"@],
        },
    ]
}

/// The description of the shell tool.
pub open spec fn exec_tool_model() -> ToolModel {
    ToolModel {
        name: "exec_command"@,
        description: "Run a shell command (bash -c) with its working directory inside the repo storage area, under a hard timeout. Intended for running tests, linters, builds and read-only verification commands, not as a substitute for the fs_* and git_* tools where those cover the operation."@,
        params: seq![ParamModel { name: "repo_path"@, kind: ParamKind::Text, description: Some("Working directory, relative to the repo storage root."@) }, ParamModel { name: "command"@, kind: ParamKind::Text, description: None }, ParamModel { name: "timeout_secs"@, kind: ParamKind::Integer, description: Some("Seconds before the command is stopped. Defaults to 120, at most 900."@) }],
        required: seq!["repo_path"@, "command"@],
    }
}

/// The tools listed to callers: the shell tool comes last, and only when it
/// is enabled.
pub open spec fn listed_tools(exec_enabled: bool) -> Seq<ToolModel> {
    if exec_enabled {
        tool_table().push(exec_tool_model())
    } else {
        tool_table()
    }
}

fn param(name: &str, kind: ParamKind, description: Option<&str>) -> (p: ParamSpec)
    ensures
        p@ == (ParamModel {
            name: name@,
            kind,
            description: match description {
                Some(d) => Some(d@),
                None => None,
            },
        }),
{
    ParamSpec {
        name: owned(name),
        kind,
        description: match description {
            Some(d) => Some(owned(d)),
            None => None,
        },
    }
}

fn spec_of_fs_read_file() -> (t: ToolSpec)
    ensures
        t@ == tool_table()[0],
{
    let mut params: Vec<ParamSpec> = Vec::new();
    params.push(param("path", ParamKind::Text, Some("Path relative to the repo storage root.")));
    let mut required: Vec<String> = Vec::new();
    required.push(owned("path"));
    let t = ToolSpec { name: owned("fs_read_file"), description: owned("Read the full text content of a file within the repo storage area."), params, required };
    assert(t@.params =~= tool_table()[0].params);
    assert(t@.required =~= tool_table()[0].required);
    t
}

fn spec_of_fs_write_file() -> (t: ToolSpec)
    ensures
        t@ == tool_table()[1],
{
    let mut params: Vec<ParamSpec> = Vec::new();
    params.push(param("path", ParamKind::Text, None));
    params.push(param("content", ParamKind::Text, None));
    let mut required: Vec<String> = Vec::new();
    required.push(owned("path"));
    required.push(owned("content"));
    let t = ToolSpec { name: owned("fs_write_file"), description: owned("Write (create or overwrite) a text file within the repo storage area."), params, required };
    assert(t@.params =~= tool_table()[1].params);
    assert(t@.required =~= tool_table()[1].required);
    t
}

fn spec_of_fs_list_directory() -> (t: ToolSpec)
    ensures
        t@ == tool_table()[2],
{
    let mut params: Vec<ParamSpec> = Vec::new();
    params.push(param("path", ParamKind::Text, None));
    let mut required: Vec<String> = Vec::new();
    required.push(owned("path"));
    let t = ToolSpec { name: owned("fs_list_directory"), description: owned("List files and subdirectories at a given path within the repo storage area."), params, required };
    assert(t@.params =~= tool_table()[2].params);
    assert(t@.required =~= tool_table()[2].required);
    t
}

fn spec_of_fs_create_directory() -> (t: ToolSpec)
    ensures
        t@ == tool_table()[3],
{
    let mut params: Vec<ParamSpec> = Vec::new();
    params.push(param("path", ParamKind::Text, None));
    let mut required: Vec<String> = Vec::new();
    required.push(owned("path"));
    let t = ToolSpec { name: owned("fs_create_directory"), description: owned("Create a directory (and any missing parents) within the repo storage area."), params, required };
    assert(t@.params =~= tool_table()[3].params);
    assert(t@.required =~= tool_table()[3].required);
    t
}

fn spec_of_fs_delete_path() -> (t: ToolSpec)
    ensures
        t@ == tool_table()[4],
{
    let mut params: Vec<ParamSpec> = Vec::new();
    params.push(param("path", ParamKind::Text, None));
    let mut required: Vec<String> = Vec::new();
    required.push(owned("path"));
    let t = ToolSpec { name: owned("fs_delete_path"), description: owned("Delete a file or directory (recursively) within the repo storage area."), params, required };
    assert(t@.params =~= tool_table()[4].params);
    assert(t@.required =~= tool_table()[4].required);
    t
}

fn spec_of_fs_move_path() -> (t: ToolSpec)
    ensures
        t@ == tool_table()[5],
{
    let mut params: Vec<ParamSpec> = Vec::new();
    params.push(param("source", ParamKind::Text, None));
    params.push(param("destination", ParamKind::Text, None));
    let mut required: Vec<String> = Vec::new();
    required.push(owned("source"));
    required.push(owned("destination"));
    let t = ToolSpec { name: owned("fs_move_path"), description: owned("Move or rename a file or directory within the repo storage area."), params, required };
    assert(t@.params =~= tool_table()[5].params);
    assert(t@.required =~= tool_table()[5].required);
    t
}

fn spec_of_fs_search_files() -> (t: ToolSpec)
    ensures
        t@ == tool_table()[6],
{
    let mut params: Vec<ParamSpec> = Vec::new();
    params.push(param("path", ParamKind::Text, Some("Directory to search within.")));
    params.push(param("pattern", ParamKind::Text, Some("Substring to match against file/directory names (case-insensitive).")));
    let mut required: Vec<String> = Vec::new();
    required.push(owned("path"));
    required.push(owned("pattern"));
    let t = ToolSpec { name: owned("fs_search_files"), description: owned("Recursively search for files/directories whose name contains the given substring."), params, required };
    assert(t@.params =~= tool_table()[6].params);
    assert(t@.required =~= tool_table()[6].required);
    t
}

fn spec_of_fs_edit_file() -> (t: ToolSpec)
    ensures
        t@ == tool_table()[7],
{
    let mut params: Vec<ParamSpec> = Vec::new();
    params.push(param("path", ParamKind::Text, None));
    params.push(param("old_str", ParamKind::Text, Some("Exact text to replace; must occur exactly once in the file.")));
    params.push(param("new_str", ParamKind::Text, Some("Replacement text.")));
    let mut required: Vec<String> = Vec::new();
    required.push(owned("path"));
    required.push(owned("old_str"));
    required.push(owned("new_str"));
    let t = ToolSpec { name: owned("fs_edit_file"), description: owned("Replace exactly one occurrence of old_str with new_str in a file within the repo storage area. Refused when old_str matches no location or more than one; widen old_str with surrounding context until it matches exactly one place. Use this for small edits instead of rewriting the whole file."), params, required };
    assert(t@.params =~= tool_table()[7].params);
    assert(t@.required =~= tool_table()[7].required);
    t
}

fn spec_of_fs_grep_content() -> (t: ToolSpec)
    ensures
        t@ == tool_table()[8],
{
    let mut params: Vec<ParamSpec> = Vec::new();
    params.push(param("path", ParamKind::Text, Some("Directory to search within.")));
    params.push(param("pattern", ParamKind::Text, Some("Substring to look for in file contents (case-insensitive).")));
    let mut required: Vec<String> = Vec::new();
    required.push(owned("path"));
    required.push(owned("pattern"));
    let t = ToolSpec { name: owned("fs_grep_content"), description: owned("Search the contents of the files under a path for lines containing the given substring (case-insensitive), distinct from fs_search_files, which matches on names only. Reports each matching line with its file and line number, capped at 200 matches."), params, required };
    assert(t@.params =~= tool_table()[8].params);
    assert(t@.required =~= tool_table()[8].required);
    t
}

fn spec_of_git_clone() -> (t: ToolSpec)
    ensures
        t@ == tool_table()[9],
{
    let mut params: Vec<ParamSpec> = Vec::new();
    params.push(param("url", ParamKind::Text, None));
    params.push(param("destination", ParamKind::Text, Some("Relative path to clone into.")));
    params.push(param("branch", ParamKind::Text, Some("Optional branch to check out.")));
    let mut required: Vec<String> = Vec::new();
    required.push(owned("url"));
    required.push(owned("destination"));
    let t = ToolSpec { name: owned("git_clone"), description: owned("Clone a git repository into the repo storage area. If the target is the configured Forgejo host, credentials are applied automatically — use a plain https:// URL with no embedded token or username."), params, required };
    assert(t@.params =~= tool_table()[9].params);
    assert(t@.required =~= tool_table()[9].required);
    t
}

fn spec_of_git_status() -> (t: ToolSpec)
    ensures
        t@ == tool_table()[10],
{
    let mut params: Vec<ParamSpec> = Vec::new();
    params.push(param("repo_path", ParamKind::Text, None));
    let mut required: Vec<String> = Vec::new();
    required.push(owned("repo_path"));
    let t = ToolSpec { name: owned("git_status"), description: owned("Show the working tree status of a repo."), params, required };
    assert(t@.params =~= tool_table()[10].params);
    assert(t@.required =~= tool_table()[10].required);
    t
}

fn spec_of_git_add() -> (t: ToolSpec)
    ensures
        t@ == tool_table()[11],
{
    let mut params: Vec<ParamSpec> = Vec::new();
    params.push(param("repo_path", ParamKind::Text, None));
    params.push(param("files", ParamKind::TextList, None));
    let mut required: Vec<String> = Vec::new();
    required.push(owned("repo_path"));
    let t = ToolSpec { name: owned("git_add"), description: owned("Stage files for commit. Omit 'files' to stage all changes."), params, required };
    assert(t@.params =~= tool_table()[11].params);
    assert(t@.required =~= tool_table()[11].required);
    t
}

fn spec_of_git_commit() -> (t: ToolSpec)
    ensures
        t@ == tool_table()[12],
{
    let mut params: Vec<ParamSpec> = Vec::new();
    params.push(param("repo_path", ParamKind::Text, None));
    params.push(param("message", ParamKind::Text, None));
    let mut required: Vec<String> = Vec::new();
    required.push(owned("repo_path"));
    required.push(owned("message"));
    let t = ToolSpec { name: owned("git_commit"), description: owned("Commit currently staged changes."), params, required };
    assert(t@.params =~= tool_table()[12].params);
    assert(t@.required =~= tool_table()[12].required);
    t
}

fn spec_of_git_push() -> (t: ToolSpec)
    ensures
        t@ == tool_table()[13],
{
    let mut params: Vec<ParamSpec> = Vec::new();
    params.push(param("repo_path", ParamKind::Text, None));
    params.push(param("remote", ParamKind::Text, Some("Defaults to 'origin'.")));
    params.push(param("branch", ParamKind::Text, None));
    let mut required: Vec<String> = Vec::new();
    required.push(owned("repo_path"));
    let t = ToolSpec { name: owned("git_push"), description: owned("Push local commits to a remote."), params, required };
    assert(t@.params =~= tool_table()[13].params);
    assert(t@.required =~= tool_table()[13].required);
    t
}

fn spec_of_git_pull() -> (t: ToolSpec)
    ensures
        t@ == tool_table()[14],
{
    let mut params: Vec<ParamSpec> = Vec::new();
    params.push(param("repo_path", ParamKind::Text, None));
    params.push(param("remote", ParamKind::Text, Some("Defaults to 'origin'.")));
    params.push(param("branch", ParamKind::Text, None));
    let mut required: Vec<String> = Vec::new();
    required.push(owned("repo_path"));
    let t = ToolSpec { name: owned("git_pull"), description: owned("Pull changes from a remote."), params, required };
    assert(t@.params =~= tool_table()[14].params);
    assert(t@.required =~= tool_table()[14].required);
    t
}

fn spec_of_git_branch_list() -> (t: ToolSpec)
    ensures
        t@ == tool_table()[15],
{
    let mut params: Vec<ParamSpec> = Vec::new();
    params.push(param("repo_path", ParamKind::Text, None));
    let mut required: Vec<String> = Vec::new();
    required.push(owned("repo_path"));
    let t = ToolSpec { name: owned("git_branch_list"), description: owned("List local and remote branches."), params, required };
    assert(t@.params =~= tool_table()[15].params);
    assert(t@.required =~= tool_table()[15].required);
    t
}

fn spec_of_git_checkout() -> (t: ToolSpec)
    ensures
        t@ == tool_table()[16],
{
    let mut params: Vec<ParamSpec> = Vec::new();
    params.push(param("repo_path", ParamKind::Text, None));
    params.push(param("branch", ParamKind::Text, None));
    params.push(param("create", ParamKind::Flag, Some("Create the branch if it doesn't exist.")));
    let mut required: Vec<String> = Vec::new();
    required.push(owned("repo_path"));
    required.push(owned("branch"));
    let t = ToolSpec { name: owned("git_checkout"), description: owned("Check out a branch, optionally creating it."), params, required };
    assert(t@.params =~= tool_table()[16].params);
    assert(t@.required =~= tool_table()[16].required);
    t
}

fn spec_of_git_diff() -> (t: ToolSpec)
    ensures
        t@ == tool_table()[17],
{
    let mut params: Vec<ParamSpec> = Vec::new();
    params.push(param("repo_path", ParamKind::Text, None));
    params.push(param("staged", ParamKind::Flag, None));
    let mut required: Vec<String> = Vec::new();
    required.push(owned("repo_path"));
    let t = ToolSpec { name: owned("git_diff"), description: owned("Show diff of unstaged (or staged) changes."), params, required };
    assert(t@.params =~= tool_table()[17].params);
    assert(t@.required =~= tool_table()[17].required);
    t
}

fn spec_of_git_log() -> (t: ToolSpec)
    ensures
        t@ == tool_table()[18],
{
    let mut params: Vec<ParamSpec> = Vec::new();
    params.push(param("repo_path", ParamKind::Text, None));
    params.push(param("limit", ParamKind::Integer, Some("Number of commits to show. Defaults to 20.")));
    let mut required: Vec<String> = Vec::new();
    required.push(owned("repo_path"));
    let t = ToolSpec { name: owned("git_log"), description: owned("Show recent commit history."), params, required };
    assert(t@.params =~= tool_table()[18].params);
    assert(t@.required =~= tool_table()[18].required);
    t
}

fn spec_of_exec_command() -> (t: ToolSpec)
    ensures
        t@ == exec_tool_model(),
{
    let mut params: Vec<ParamSpec> = Vec::new();
    params.push(param("repo_path", ParamKind::Text, Some("Working directory, relative to the repo storage root.")));
    params.push(param("command", ParamKind::Text, None));
    params.push(param("timeout_secs", ParamKind::Integer, Some("Seconds before the command is stopped. Defaults to 120, at most 900.")));
    let mut required: Vec<String> = Vec::new();
    required.push(owned("repo_path"));
    required.push(owned("command"));
    let t = ToolSpec { name: owned("exec_command"), description: owned("Run a shell command (bash -c) with its working directory inside the repo storage area, under a hard timeout. Intended for running tests, linters, builds and read-only verification commands, not as a substitute for the fs_* and git_* tools where those cover the operation."), params, required };
    assert(t@.params =~= exec_tool_model().params);
    assert(t@.required =~= exec_tool_model().required);
    t
}

/// The descriptions of the tools, for a listing request: the shell tool is
/// listed only when `exec_enabled` holds.
pub fn tool_list(exec_enabled: bool) -> (r: Vec<ToolSpec>)
    ensures
        tool_models(r@) == listed_tools(exec_enabled),
{
    let mut r: Vec<ToolSpec> = Vec::new();
    r.push(spec_of_fs_read_file());
    r.push(spec_of_fs_write_file());
    r.push(spec_of_fs_list_directory());
    r.push(spec_of_fs_create_directory());
    r.push(spec_of_fs_delete_path());
    r.push(spec_of_fs_move_path());
    r.push(spec_of_fs_search_files());
    r.push(spec_of_fs_edit_file());
    r.push(spec_of_fs_grep_content());
    r.push(spec_of_git_clone());
    r.push(spec_of_git_status());
    r.push(spec_of_git_add());
    r.push(spec_of_git_commit());
    r.push(spec_of_git_push());
    r.push(spec_of_git_pull());
    r.push(spec_of_git_branch_list());
    r.push(spec_of_git_checkout());
    r.push(spec_of_git_diff());
    r.push(spec_of_git_log());
    assert(tool_models(r@) =~= tool_table());
    if exec_enabled {
        let ghost before = r@;
        r.push(spec_of_exec_command());
        assert(tool_models(r@) =~= tool_models(before).push(exec_tool_model()));
    }
    r
}

/// A name that the tool list does not hold is refused as an unknown tool,
/// whatever the arguments; with the shell tool disabled, `exec_command` is
/// such a name.
pub proof fn lemma_unlisted_tool_is_unknown(name: Seq<char>, args: ArgValue, exec_enabled: bool)
    requires
        forall|i: int| 0 <= i < listed_tools(exec_enabled).len() ==> listed_tools(exec_enabled)[i].name != name,
    ensures
        dispatch_model(name, args, exec_enabled) == Err::<ToolCallModel, Seq<char>>(unknown_tool_message(name)),
{
    assert(listed_tools(exec_enabled)[0].name == "fs_read_file"@);
    assert(listed_tools(exec_enabled)[1].name == "fs_write_file"@);
    assert(listed_tools(exec_enabled)[2].name == "fs_list_directory"@);
    assert(listed_tools(exec_enabled)[3].name == "fs_create_directory"@);
    assert(listed_tools(exec_enabled)[4].name == "fs_delete_path"@);
    assert(listed_tools(exec_enabled)[5].name == "fs_move_path"@);
    assert(listed_tools(exec_enabled)[6].name == "fs_search_files"@);
    assert(listed_tools(exec_enabled)[7].name == "fs_edit_file"@);
    assert(listed_tools(exec_enabled)[8].name == "fs_grep_content"@);
    assert(listed_tools(exec_enabled)[9].name == "git_clone"@);
    assert(listed_tools(exec_enabled)[10].name == "git_status"@);
    assert(listed_tools(exec_enabled)[11].name == "git_add"@);
    assert(listed_tools(exec_enabled)[12].name == "git_commit"@);
    assert(listed_tools(exec_enabled)[13].name == "git_push"@);
    assert(listed_tools(exec_enabled)[14].name == "git_pull"@);
    assert(listed_tools(exec_enabled)[15].name == "git_branch_list"@);
    assert(listed_tools(exec_enabled)[16].name == "git_checkout"@);
    assert(listed_tools(exec_enabled)[17].name == "git_diff"@);
    assert(listed_tools(exec_enabled)[18].name == "git_log"@);
    if exec_enabled {
        assert(listed_tools(exec_enabled)[19].name == "exec_command"@);
    }
}

proof fn lemma_tool_0_dispatched(args: ArgValue, exec_enabled: bool)
    ensures
        match dispatch_model("fs_read_file"@, args, exec_enabled) {
            Ok(ToolCallModel::FsReadFile { path }) => (member(args, "path"@) matches Some(ArgValue::Str(s)) && s@ == path),
            Ok(_) => false,
            Err(_) => true,
        },
        dispatch_model(tool_table()[0].name, args, exec_enabled) is Ok <==> (forall|k: int|
            0 <= k < tool_table()[0].required.len() ==> str_member(args, #[trigger] tool_table()[0].required[k]) is Some),
        dispatch_model(tool_table()[0].name, args, exec_enabled) != Err::<ToolCallModel, Seq<char>>(unknown_tool_message(tool_table()[0].name)),
{
    reveal_strlit("fs_read_file");
    reveal_strlit("unknown tool: ");
    reveal_strlit("missing required string argument: ");
    let t = tool_table()[0];
    assert(t.name == "fs_read_file"@);
    assert(t.required == seq!["path"@]);
    assert(unknown_tool_message(t.name)[0] == 'u');
    assert(t.required[0] == "path"@);
    assert(missing_argument_message("path"@)[0] == 'm');
    if forall|k: int| 0 <= k < t.required.len() ==> str_member(args, #[trigger] t.required[k]) is Some {
        assert(str_member(args, t.required[0]) is Some);
    }
    if dispatch_model(t.name, args, exec_enabled) is Ok {
        assert forall|k: int| 0 <= k < t.required.len() implies str_member(args, #[trigger] t.required[k]) is Some by {
            if k == 0 {
                assert(str_member(args, "path"@) is Some);
            }
        }
    }
}

proof fn lemma_tool_1_dispatched(args: ArgValue, exec_enabled: bool)
    ensures
        match dispatch_model("fs_write_file"@, args, exec_enabled) {
            Ok(ToolCallModel::FsWriteFile { path, content }) => (member(args, "path"@) matches Some(ArgValue::Str(s)) && s@ == path) && (member(args, "content"@) matches Some(ArgValue::Str(s)) && s@ == content),
            Ok(_) => false,
            Err(_) => true,
        },
        dispatch_model(tool_table()[1].name, args, exec_enabled) is Ok <==> (forall|k: int|
            0 <= k < tool_table()[1].required.len() ==> str_member(args, #[trigger] tool_table()[1].required[k]) is Some),
        dispatch_model(tool_table()[1].name, args, exec_enabled) != Err::<ToolCallModel, Seq<char>>(unknown_tool_message(tool_table()[1].name)),
{
    reveal_strlit("fs_read_file");
    reveal_strlit("fs_write_file");
    reveal_strlit("unknown tool: ");
    reveal_strlit("missing required string argument: ");
    assert("fs_write_file"@.len() != "fs_read_file"@.len());
    assert("fs_write_file"@ != "fs_read_file"@);
    let t = tool_table()[1];
    assert(t.name == "fs_write_file"@);
    assert(t.required == seq!["path"@, "content"@]);
    assert(unknown_tool_message(t.name)[0] == 'u');
    assert(t.required[0] == "path"@);
    assert(missing_argument_message("path"@)[0] == 'm');
    assert(t.required[1] == "content"@);
    assert(missing_argument_message("content"@)[0] == 'm');
    if forall|k: int| 0 <= k < t.required.len() ==> str_member(args, #[trigger] t.required[k]) is Some {
        assert(str_member(args, t.required[0]) is Some);
        assert(str_member(args, t.required[1]) is Some);
    }
    if dispatch_model(t.name, args, exec_enabled) is Ok {
        assert forall|k: int| 0 <= k < t.required.len() implies str_member(args, #[trigger] t.required[k]) is Some by {
            if k == 0 {
                assert(str_member(args, "path"@) is Some);
            } else if k == 1 {
                assert(str_member(args, "content"@) is Some);
            }
        }
    }
}

proof fn lemma_tool_2_dispatched(args: ArgValue, exec_enabled: bool)
    ensures
        match dispatch_model("fs_list_directory"@, args, exec_enabled) {
            Ok(ToolCallModel::FsListDirectory { path }) => (member(args, "path"@) matches Some(ArgValue::Str(s)) && s@ == path),
            Ok(_) => false,
            Err(_) => true,
        },
        dispatch_model(tool_table()[2].name, args, exec_enabled) is Ok <==> (forall|k: int|
            0 <= k < tool_table()[2].required.len() ==> str_member(args, #[trigger] tool_table()[2].required[k]) is Some),
        dispatch_model(tool_table()[2].name, args, exec_enabled) != Err::<ToolCallModel, Seq<char>>(unknown_tool_message(tool_table()[2].name)),
{
    reveal_strlit("fs_read_file");
    reveal_strlit("fs_write_file");
    reveal_strlit("fs_list_directory");
    reveal_strlit("unknown tool: ");
    reveal_strlit("missing required string argument: ");
    assert("fs_list_directory"@.len() != "fs_read_file"@.len());
    assert("fs_list_directory"@ != "fs_read_file"@);
    assert("fs_list_directory"@.len() != "fs_write_file"@.len());
    assert("fs_list_directory"@ != "fs_write_file"@);
    let t = tool_table()[2];
    assert(t.name == "fs_list_directory"@);
    assert(t.required == seq!["path"@]);
    assert(unknown_tool_message(t.name)[0] == 'u');
    assert(t.required[0] == "path"@);
    assert(missing_argument_message("path"@)[0] == 'm');
    if forall|k: int| 0 <= k < t.required.len() ==> str_member(args, #[trigger] t.required[k]) is Some {
        assert(str_member(args, t.required[0]) is Some);
    }
    if dispatch_model(t.name, args, exec_enabled) is Ok {
        assert forall|k: int| 0 <= k < t.required.len() implies str_member(args, #[trigger] t.required[k]) is Some by {
            if k == 0 {
                assert(str_member(args, "path"@) is Some);
            }
        }
    }
}

proof fn lemma_tool_3_dispatched(args: ArgValue, exec_enabled: bool)
    ensures
        match dispatch_model("fs_create_directory"@, args, exec_enabled) {
            Ok(ToolCallModel::FsCreateDirectory { path }) => (member(args, "path"@) matches Some(ArgValue::Str(s)) && s@ == path),
            Ok(_) => false,
            Err(_) => true,
        },
        dispatch_model(tool_table()[3].name, args, exec_enabled) is Ok <==> (forall|k: int|
            0 <= k < tool_table()[3].required.len() ==> str_member(args, #[trigger] tool_table()[3].required[k]) is Some),
        dispatch_model(tool_table()[3].name, args, exec_enabled) != Err::<ToolCallModel, Seq<char>>(unknown_tool_message(tool_table()[3].name)),
{
    reveal_strlit("fs_read_file");
    reveal_strlit("fs_write_file");
    reveal_strlit("fs_list_directory");
    reveal_strlit("fs_create_directory");
    reveal_strlit("unknown tool: ");
    reveal_strlit("missing required string argument: ");
    assert("fs_create_directory"@.len() != "fs_read_file"@.len());
    assert("fs_create_directory"@ != "fs_read_file"@);
    assert("fs_create_directory"@.len() != "fs_write_file"@.len());
    assert("fs_create_directory"@ != "fs_write_file"@);
    assert("fs_create_directory"@.len() != "fs_list_directory"@.len());
    assert("fs_create_directory"@ != "fs_list_directory"@);
    let t = tool_table()[3];
    assert(t.name == "fs_create_directory"@);
    assert(t.required == seq!["path"@]);
    assert(unknown_tool_message(t.name)[0] == 'u');
    assert(t.required[0] == "path"@);
    assert(missing_argument_message("path"@)[0] == 'm');
    if forall|k: int| 0 <= k < t.required.len() ==> str_member(args, #[trigger] t.required[k]) is Some {
        assert(str_member(args, t.required[0]) is Some);
    }
    if dispatch_model(t.name, args, exec_enabled) is Ok {
        assert forall|k: int| 0 <= k < t.required.len() implies str_member(args, #[trigger] t.required[k]) is Some by {
            if k == 0 {
                assert(str_member(args, "path"@) is Some);
            }
        }
    }
}

proof fn lemma_tool_4_dispatched(args: ArgValue, exec_enabled: bool)
    ensures
        match dispatch_model("fs_delete_path"@, args, exec_enabled) {
            Ok(ToolCallModel::FsDeletePath { path }) => (member(args, "path"@) matches Some(ArgValue::Str(s)) && s@ == path),
            Ok(_) => false,
            Err(_) => true,
        },
        dispatch_model(tool_table()[4].name, args, exec_enabled) is Ok <==> (forall|k: int|
            0 <= k < tool_table()[4].required.len() ==> str_member(args, #[trigger] tool_table()[4].required[k]) is Some),
        dispatch_model(tool_table()[4].name, args, exec_enabled) != Err::<ToolCallModel, Seq<char>>(unknown_tool_message(tool_table()[4].name)),
{
    reveal_strlit("fs_read_file");
    reveal_strlit("fs_write_file");
    reveal_strlit("fs_list_directory");
    reveal_strlit("fs_create_directory");
    reveal_strlit("fs_delete_path");
    reveal_strlit("unknown tool: ");
    reveal_strlit("missing required string argument: ");
    assert("fs_delete_path"@.len() != "fs_read_file"@.len());
    assert("fs_delete_path"@ != "fs_read_file"@);
    assert("fs_delete_path"@.len() != "fs_write_file"@.len());
    assert("fs_delete_path"@ != "fs_write_file"@);
    assert("fs_delete_path"@.len() != "fs_list_directory"@.len());
    assert("fs_delete_path"@ != "fs_list_directory"@);
    assert("fs_delete_path"@.len() != "fs_create_directory"@.len());
    assert("fs_delete_path"@ != "fs_create_directory"@);
    let t = tool_table()[4];
    assert(t.name == "fs_delete_path"@);
    assert(t.required == seq!["path"@]);
    assert(unknown_tool_message(t.name)[0] == 'u');
    assert(t.required[0] == "path"@);
    assert(missing_argument_message("path"@)[0] == 'm');
    if forall|k: int| 0 <= k < t.required.len() ==> str_member(args, #[trigger] t.required[k]) is Some {
        assert(str_member(args, t.required[0]) is Some);
    }
    if dispatch_model(t.name, args, exec_enabled) is Ok {
        assert forall|k: int| 0 <= k < t.required.len() implies str_member(args, #[trigger] t.required[k]) is Some by {
            if k == 0 {
                assert(str_member(args, "path"@) is Some);
            }
        }
    }
}

proof fn lemma_tool_5_dispatched(args: ArgValue, exec_enabled: bool)
    ensures
        match dispatch_model("fs_move_path"@, args, exec_enabled) {
            Ok(ToolCallModel::FsMovePath { source, destination }) => (member(args, "source"@) matches Some(ArgValue::Str(s)) && s@ == source) && (member(args, "destination"@) matches Some(ArgValue::Str(s)) && s@ == destination),
            Ok(_) => false,
            Err(_) => true,
        },
        dispatch_model(tool_table()[5].name, args, exec_enabled) is Ok <==> (forall|k: int|
            0 <= k < tool_table()[5].required.len() ==> str_member(args, #[trigger] tool_table()[5].required[k]) is Some),
        dispatch_model(tool_table()[5].name, args, exec_enabled) != Err::<ToolCallModel, Seq<char>>(unknown_tool_message(tool_table()[5].name)),
{
    reveal_strlit("fs_read_file");
    reveal_strlit("fs_write_file");
    reveal_strlit("fs_list_directory");
    reveal_strlit("fs_create_directory");
    reveal_strlit("fs_delete_path");
    reveal_strlit("fs_move_path");
    reveal_strlit("unknown tool: ");
    reveal_strlit("missing required string argument: ");
    assert("fs_move_path"@[3] != "fs_read_file"@[3]);
    assert("fs_move_path"@ != "fs_read_file"@);
    assert("fs_move_path"@.len() != "fs_write_file"@.len());
    assert("fs_move_path"@ != "fs_write_file"@);
    assert("fs_move_path"@.len() != "fs_list_directory"@.len());
    assert("fs_move_path"@ != "fs_list_directory"@);
    assert("fs_move_path"@.len() != "fs_create_directory"@.len());
    assert("fs_move_path"@ != "fs_create_directory"@);
    assert("fs_move_path"@.len() != "fs_delete_path"@.len());
    assert("fs_move_path"@ != "fs_delete_path"@);
    let t = tool_table()[5];
    assert(t.name == "fs_move_path"@);
    assert(t.required == seq!["source"@, "destination"@]);
    assert(unknown_tool_message(t.name)[0] == 'u');
    assert(t.required[0] == "source"@);
    assert(missing_argument_message("source"@)[0] == 'm');
    assert(t.required[1] == "destination"@);
    assert(missing_argument_message("destination"@)[0] == 'm');
    if forall|k: int| 0 <= k < t.required.len() ==> str_member(args, #[trigger] t.required[k]) is Some {
        assert(str_member(args, t.required[0]) is Some);
        assert(str_member(args, t.required[1]) is Some);
    }
    if dispatch_model(t.name, args, exec_enabled) is Ok {
        assert forall|k: int| 0 <= k < t.required.len() implies str_member(args, #[trigger] t.required[k]) is Some by {
            if k == 0 {
                assert(str_member(args, "source"@) is Some);
            } else if k == 1 {
                assert(str_member(args, "destination"@) is Some);
            }
        }
    }
}

proof fn lemma_tool_6_dispatched(args: ArgValue, exec_enabled: bool)
    ensures
        match dispatch_model("fs_search_files"@, args, exec_enabled) {
            Ok(ToolCallModel::FsSearchFiles { path, pattern }) => (member(args, "path"@) matches Some(ArgValue::Str(s)) && s@ == path) && (member(args, "pattern"@) matches Some(ArgValue::Str(s)) && s@ == pattern),
            Ok(_) => false,
            Err(_) => true,
        },
        dispatch_model(tool_table()[6].name, args, exec_enabled) is Ok <==> (forall|k: int|
            0 <= k < tool_table()[6].required.len() ==> str_member(args, #[trigger] tool_table()[6].required[k]) is Some),
        dispatch_model(tool_table()[6].name, args, exec_enabled) != Err::<ToolCallModel, Seq<char>>(unknown_tool_message(tool_table()[6].name)),
{
    reveal_strlit("fs_read_file");
    reveal_strlit("fs_write_file");
    reveal_strlit("fs_list_directory");
    reveal_strlit("fs_create_directory");
    reveal_strlit("fs_delete_path");
    reveal_strlit("fs_move_path");
    reveal_strlit("fs_search_files");
    reveal_strlit("unknown tool: ");
    reveal_strlit("missing required string argument: ");
    assert("fs_search_files"@.len() != "fs_read_file"@.len());
    assert("fs_search_files"@ != "fs_read_file"@);
    assert("fs_search_files"@.len() != "fs_write_file"@.len());
    assert("fs_search_files"@ != "fs_write_file"@);
    assert("fs_search_files"@.len() != "fs_list_directory"@.len());
    assert("fs_search_files"@ != "fs_list_directory"@);
    assert("fs_search_files"@.len() != "fs_create_directory"@.len());
    assert("fs_search_files"@ != "fs_create_directory"@);
    assert("fs_search_files"@.len() != "fs_delete_path"@.len());
    assert("fs_search_files"@ != "fs_delete_path"@);
    assert("fs_search_files"@.len() != "fs_move_path"@.len());
    assert("fs_search_files"@ != "fs_move_path"@);
    let t = tool_table()[6];
    assert(t.name == "fs_search_files"@);
    assert(t.required == seq!["path"@, "pattern"@]);
    assert(unknown_tool_message(t.name)[0] == 'u');
    assert(t.required[0] == "path"@);
    assert(missing_argument_message("path"@)[0] == 'm');
    assert(t.required[1] == "pattern"@);
    assert(missing_argument_message("pattern"@)[0] == 'm');
    if forall|k: int| 0 <= k < t.required.len() ==> str_member(args, #[trigger] t.required[k]) is Some {
        assert(str_member(args, t.required[0]) is Some);
        assert(str_member(args, t.required[1]) is Some);
    }
    if dispatch_model(t.name, args, exec_enabled) is Ok {
        assert forall|k: int| 0 <= k < t.required.len() implies str_member(args, #[trigger] t.required[k]) is Some by {
            if k == 0 {
                assert(str_member(args, "path"@) is Some);
            } else if k == 1 {
                assert(str_member(args, "pattern"@) is Some);
            }
        }
    }
}

proof fn lemma_tool_7_dispatched(args: ArgValue, exec_enabled: bool)
    ensures
        match dispatch_model("fs_edit_file"@, args, exec_enabled) {
            Ok(ToolCallModel::FsEditFile { path, old_str, new_str }) => (member(args, "path"@) matches Some(ArgValue::Str(s)) && s@ == path) && (member(args, "old_str"@) matches Some(ArgValue::Str(s)) && s@ == old_str) && (member(args, "new_str"@) matches Some(ArgValue::Str(s)) && s@ == new_str),
            Ok(_) => false,
            Err(_) => true,
        },
        dispatch_model(tool_table()[7].name, args, exec_enabled) is Ok <==> (forall|k: int|
            0 <= k < tool_table()[7].required.len() ==> str_member(args, #[trigger] tool_table()[7].required[k]) is Some),
        dispatch_model(tool_table()[7].name, args, exec_enabled) != Err::<ToolCallModel, Seq<char>>(unknown_tool_message(tool_table()[7].name)),
{
    reveal_strlit("fs_read_file");
    reveal_strlit("fs_write_file");
    reveal_strlit("fs_list_directory");
    reveal_strlit("fs_create_directory");
    reveal_strlit("fs_delete_path");
    reveal_strlit("fs_move_path");
    reveal_strlit("fs_search_files");
    reveal_strlit("fs_edit_file");
    reveal_strlit("unknown tool: ");
    reveal_strlit("missing required string argument: ");
    assert("fs_edit_file"@[3] != "fs_read_file"@[3]);
    assert("fs_edit_file"@ != "fs_read_file"@);
    assert("fs_edit_file"@.len() != "fs_write_file"@.len());
    assert("fs_edit_file"@ != "fs_write_file"@);
    assert("fs_edit_file"@.len() != "fs_list_directory"@.len());
    assert("fs_edit_file"@ != "fs_list_directory"@);
    assert("fs_edit_file"@.len() != "fs_create_directory"@.len());
    assert("fs_edit_file"@ != "fs_create_directory"@);
    assert("fs_edit_file"@.len() != "fs_delete_path"@.len());
    assert("fs_edit_file"@ != "fs_delete_path"@);
    assert("fs_edit_file"@[3] != "fs_move_path"@[3]);
    assert("fs_edit_file"@ != "fs_move_path"@);
    assert("fs_edit_file"@.len() != "fs_search_files"@.len());
    assert("fs_edit_file"@ != "fs_search_files"@);
    let t = tool_table()[7];
    assert(t.name == "fs_edit_file"@);
    assert(t.required == seq!["path"@, "old_str"@, "new_str"@]);
    assert(unknown_tool_message(t.name)[0] == 'u');
    assert(t.required[0] == "path"@);
    assert(missing_argument_message("path"@)[0] == 'm');
    assert(t.required[1] == "old_str"@);
    assert(missing_argument_message("old_str"@)[0] == 'm');
    assert(t.required[2] == "new_str"@);
    assert(missing_argument_message("new_str"@)[0] == 'm');
    if forall|k: int| 0 <= k < t.required.len() ==> str_member(args, #[trigger] t.required[k]) is Some {
        assert(str_member(args, t.required[0]) is Some);
        assert(str_member(args, t.required[1]) is Some);
        assert(str_member(args, t.required[2]) is Some);
    }
    if dispatch_model(t.name, args, exec_enabled) is Ok {
        assert forall|k: int| 0 <= k < t.required.len() implies str_member(args, #[trigger] t.required[k]) is Some by {
            if k == 0 {
                assert(str_member(args, "path"@) is Some);
            } else if k == 1 {
                assert(str_member(args, "old_str"@) is Some);
            } else if k == 2 {
                assert(str_member(args, "new_str"@) is Some);
            }
        }
    }
}

proof fn lemma_tool_8_dispatched(args: ArgValue, exec_enabled: bool)
    ensures
        match dispatch_model("fs_grep_content"@, args, exec_enabled) {
            Ok(ToolCallModel::FsGrepContent { path, pattern }) => (member(args, "path"@) matches Some(ArgValue::Str(s)) && s@ == path) && (member(args, "pattern"@) matches Some(ArgValue::Str(s)) && s@ == pattern),
            Ok(_) => false,
            Err(_) => true,
        },
        dispatch_model(tool_table()[8].name, args, exec_enabled) is Ok <==> (forall|k: int|
            0 <= k < tool_table()[8].required.len() ==> str_member(args, #[trigger] tool_table()[8].required[k]) is Some),
        dispatch_model(tool_table()[8].name, args, exec_enabled) != Err::<ToolCallModel, Seq<char>>(unknown_tool_message(tool_table()[8].name)),
{
    reveal_strlit("fs_read_file");
    reveal_strlit("fs_write_file");
    reveal_strlit("fs_list_directory");
    reveal_strlit("fs_create_directory");
    reveal_strlit("fs_delete_path");
    reveal_strlit("fs_move_path");
    reveal_strlit("fs_search_files");
    reveal_strlit("fs_edit_file");
    reveal_strlit("fs_grep_content");
    reveal_strlit("unknown tool: ");
    reveal_strlit("missing required string argument: ");
    assert("fs_grep_content"@.len() != "fs_read_file"@.len());
    assert("fs_grep_content"@ != "fs_read_file"@);
    assert("fs_grep_content"@.len() != "fs_write_file"@.len());
    assert("fs_grep_content"@ != "fs_write_file"@);
    assert("fs_grep_content"@.len() != "fs_list_directory"@.len());
    assert("fs_grep_content"@ != "fs_list_directory"@);
    assert("fs_grep_content"@.len() != "fs_create_directory"@.len());
    assert("fs_grep_content"@ != "fs_create_directory"@);
    assert("fs_grep_content"@.len() != "fs_delete_path"@.len());
    assert("fs_grep_content"@ != "fs_delete_path"@);
    assert("fs_grep_content"@.len() != "fs_move_path"@.len());
    assert("fs_grep_content"@ != "fs_move_path"@);
    assert("fs_grep_content"@[3] != "fs_search_files"@[3]);
    assert("fs_grep_content"@ != "fs_search_files"@);
    assert("fs_grep_content"@.len() != "fs_edit_file"@.len());
    assert("fs_grep_content"@ != "fs_edit_file"@);
    let t = tool_table()[8];
    assert(t.name == "fs_grep_content"@);
    assert(t.required == seq!["path"@, "pattern"@]);
    assert(unknown_tool_message(t.name)[0] == 'u');
    assert(t.required[0] == "path"@);
    assert(missing_argument_message("path"@)[0] == 'm');
    assert(t.required[1] == "pattern"@);
    assert(missing_argument_message("pattern"@)[0] == 'm');
    if forall|k: int| 0 <= k < t.required.len() ==> str_member(args, #[trigger] t.required[k]) is Some {
        assert(str_member(args, t.required[0]) is Some);
        assert(str_member(args, t.required[1]) is Some);
    }
    if dispatch_model(t.name, args, exec_enabled) is Ok {
        assert forall|k: int| 0 <= k < t.required.len() implies str_member(args, #[trigger] t.required[k]) is Some by {
            if k == 0 {
                assert(str_member(args, "path"@) is Some);
            } else if k == 1 {
                assert(str_member(args, "pattern"@) is Some);
            }
        }
    }
}

proof fn lemma_tool_9_dispatched(args: ArgValue, exec_enabled: bool)
    ensures
        match dispatch_model("git_clone"@, args, exec_enabled) {
            Ok(ToolCallModel::GitClone { url, destination, branch }) => (member(args, "url"@) matches Some(ArgValue::Str(s)) && s@ == url) && (member(args, "destination"@) matches Some(ArgValue::Str(s)) && s@ == destination) && branch == (match member(args, "branch"@) { Some(ArgValue::Str(s)) => Some(s@), _ => None }),
            Ok(_) => false,
            Err(_) => true,
        },
        dispatch_model(tool_table()[9].name, args, exec_enabled) is Ok <==> (forall|k: int|
            0 <= k < tool_table()[9].required.len() ==> str_member(args, #[trigger] tool_table()[9].required[k]) is Some),
        dispatch_model(tool_table()[9].name, args, exec_enabled) != Err::<ToolCallModel, Seq<char>>(unknown_tool_message(tool_table()[9].name)),
{
    reveal_strlit("fs_read_file");
    reveal_strlit("fs_write_file");
    reveal_strlit("fs_list_directory");
    reveal_strlit("fs_create_directory");
    reveal_strlit("fs_delete_path");
    reveal_strlit("fs_move_path");
    reveal_strlit("fs_search_files");
    reveal_strlit("fs_edit_file");
    reveal_strlit("fs_grep_content");
    reveal_strlit("git_clone");
    reveal_strlit("unknown tool: ");
    reveal_strlit("missing required string argument: ");
    assert("git_clone"@.len() != "fs_read_file"@.len());
    assert("git_clone"@ != "fs_read_file"@);
    assert("git_clone"@.len() != "fs_write_file"@.len());
    assert("git_clone"@ != "fs_write_file"@);
    assert("git_clone"@.len() != "fs_list_directory"@.len());
    assert("git_clone"@ != "fs_list_directory"@);
    assert("git_clone"@.len() != "fs_create_directory"@.len());
    assert("git_clone"@ != "fs_create_directory"@);
    assert("git_clone"@.len() != "fs_delete_path"@.len());
    assert("git_clone"@ != "fs_delete_path"@);
    assert("git_clone"@.len() != "fs_move_path"@.len());
    assert("git_clone"@ != "fs_move_path"@);
    assert("git_clone"@.len() != "fs_search_files"@.len());
    assert("git_clone"@ != "fs_search_files"@);
    assert("git_clone"@.len() != "fs_edit_file"@.len());
    assert("git_clone"@ != "fs_edit_file"@);
    assert("git_clone"@.len() != "fs_grep_content"@.len());
    assert("git_clone"@ != "fs_grep_content"@);
    let t = tool_table()[9];
    assert(t.name == "git_clone"@);
    assert(t.required == seq!["url"@, "destination"@]);
    assert(unknown_tool_message(t.name)[0] == 'u');
    assert(t.required[0] == "url"@);
    assert(missing_argument_message("url"@)[0] == 'm');
    assert(t.required[1] == "destination"@);
    assert(missing_argument_message("destination"@)[0] == 'm');
    if forall|k: int| 0 <= k < t.required.len() ==> str_member(args, #[trigger] t.required[k]) is Some {
        assert(str_member(args, t.required[0]) is Some);
        assert(str_member(args, t.required[1]) is Some);
    }
    if dispatch_model(t.name, args, exec_enabled) is Ok {
        assert forall|k: int| 0 <= k < t.required.len() implies str_member(args, #[trigger] t.required[k]) is Some by {
            if k == 0 {
                assert(str_member(args, "url"@) is Some);
            } else if k == 1 {
                assert(str_member(args, "destination"@) is Some);
            }
        }
    }
}

proof fn lemma_tool_10_dispatched(args: ArgValue, exec_enabled: bool)
    ensures
        match dispatch_model("git_status"@, args, exec_enabled) {
            Ok(ToolCallModel::GitStatus { repo_path }) => (member(args, "repo_path"@) matches Some(ArgValue::Str(s)) && s@ == repo_path),
            Ok(_) => false,
            Err(_) => true,
        },
        dispatch_model(tool_table()[10].name, args, exec_enabled) is Ok <==> (forall|k: int|
            0 <= k < tool_table()[10].required.len() ==> str_member(args, #[trigger] tool_table()[10].required[k]) is Some),
        dispatch_model(tool_table()[10].name, args, exec_enabled) != Err::<ToolCallModel, Seq<char>>(unknown_tool_message(tool_table()[10].name)),
{
    reveal_strlit("fs_read_file");
    reveal_strlit("fs_write_file");
    reveal_strlit("fs_list_directory");
    reveal_strlit("fs_create_directory");
    reveal_strlit("fs_delete_path");
    reveal_strlit("fs_move_path");
    reveal_strlit("fs_search_files");
    reveal_strlit("fs_edit_file");
    reveal_strlit("fs_grep_content");
    reveal_strlit("git_clone");
    reveal_strlit("git_status");
    reveal_strlit("unknown tool: ");
    reveal_strlit("missing required string argument: ");
    assert("git_status"@.len() != "fs_read_file"@.len());
    assert("git_status"@ != "fs_read_file"@);
    assert("git_status"@.len() != "fs_write_file"@.len());
    assert("git_status"@ != "fs_write_file"@);
    assert("git_status"@.len() != "fs_list_directory"@.len());
    assert("git_status"@ != "fs_list_directory"@);
    assert("git_status"@.len() != "fs_create_directory"@.len());
    assert("git_status"@ != "fs_create_directory"@);
    assert("git_status"@.len() != "fs_delete_path"@.len());
    assert("git_status"@ != "fs_delete_path"@);
    assert("git_status"@.len() != "fs_move_path"@.len());
    assert("git_status"@ != "fs_move_path"@);
    assert("git_status"@.len() != "fs_search_files"@.len());
    assert("git_status"@ != "fs_search_files"@);
    assert("git_status"@.len() != "fs_edit_file"@.len());
    assert("git_status"@ != "fs_edit_file"@);
    assert("git_status"@.len() != "fs_grep_content"@.len());
    assert("git_status"@ != "fs_grep_content"@);
    assert("git_status"@.len() != "git_clone"@.len());
    assert("git_status"@ != "git_clone"@);
    let t = tool_table()[10];
    assert(t.name == "git_status"@);
    assert(t.required == seq!["repo_path"@]);
    assert(unknown_tool_message(t.name)[0] == 'u');
    assert(t.required[0] == "repo_path"@);
    assert(missing_argument_message("repo_path"@)[0] == 'm');
    if forall|k: int| 0 <= k < t.required.len() ==> str_member(args, #[trigger] t.required[k]) is Some {
        assert(str_member(args, t.required[0]) is Some);
    }
    if dispatch_model(t.name, args, exec_enabled) is Ok {
        assert forall|k: int| 0 <= k < t.required.len() implies str_member(args, #[trigger] t.required[k]) is Some by {
            if k == 0 {
                assert(str_member(args, "repo_path"@) is Some);
            }
        }
    }
}

proof fn lemma_tool_11_dispatched(args: ArgValue, exec_enabled: bool)
    ensures
        match dispatch_model("git_add"@, args, exec_enabled) {
            Ok(ToolCallModel::GitAdd { repo_path, files }) => (member(args, "repo_path"@) matches Some(ArgValue::Str(s)) && s@ == repo_path) && files == (match member(args, "files"@) { Some(ArgValue::Array(items)) => text_items(items@), _ => seq![] }),
            Ok(_) => false,
            Err(_) => true,
        },
        dispatch_model(tool_table()[11].name, args, exec_enabled) is Ok <==> (forall|k: int|
            0 <= k < tool_table()[11].required.len() ==> str_member(args, #[trigger] tool_table()[11].required[k]) is Some),
        dispatch_model(tool_table()[11].name, args, exec_enabled) != Err::<ToolCallModel, Seq<char>>(unknown_tool_message(tool_table()[11].name)),
{
    reveal_strlit("fs_read_file");
    reveal_strlit("fs_write_file");
    reveal_strlit("fs_list_directory");
    reveal_strlit("fs_create_directory");
    reveal_strlit("fs_delete_path");
    reveal_strlit("fs_move_path");
    reveal_strlit("fs_search_files");
    reveal_strlit("fs_edit_file");
    reveal_strlit("fs_grep_content");
    reveal_strlit("git_clone");
    reveal_strlit("git_status");
    reveal_strlit("git_add");
    reveal_strlit("unknown tool: ");
    reveal_strlit("missing required string argument: ");
    assert("git_add"@.len() != "fs_read_file"@.len());
    assert("git_add"@ != "fs_read_file"@);
    assert("git_add"@.len() != "fs_write_file"@.len());
    assert("git_add"@ != "fs_write_file"@);
    assert("git_add"@.len() != "fs_list_directory"@.len());
    assert("git_add"@ != "fs_list_directory"@);
    assert("git_add"@.len() != "fs_create_directory"@.len());
    assert("git_add"@ != "fs_create_directory"@);
    assert("git_add"@.len() != "fs_delete_path"@.len());
    assert("git_add"@ != "fs_delete_path"@);
    assert("git_add"@.len() != "fs_move_path"@.len());
    assert("git_add"@ != "fs_move_path"@);
    assert("git_add"@.len() != "fs_search_files"@.len());
    assert("git_add"@ != "fs_search_files"@);
    assert("git_add"@.len() != "fs_edit_file"@.len());
    assert("git_add"@ != "fs_edit_file"@);
    assert("git_add"@.len() != "fs_grep_content"@.len());
    assert("git_add"@ != "fs_grep_content"@);
    assert("git_add"@.len() != "git_clone"@.len());
    assert("git_add"@ != "git_clone"@);
    assert("git_add"@.len() != "git_status"@.len());
    assert("git_add"@ != "git_status"@);
    let t = tool_table()[11];
    assert(t.name == "git_add"@);
    assert(t.required == seq!["repo_path"@]);
    assert(unknown_tool_message(t.name)[0] == 'u');
    assert(t.required[0] == "repo_path"@);
    assert(missing_argument_message("repo_path"@)[0] == 'm');
    if forall|k: int| 0 <= k < t.required.len() ==> str_member(args, #[trigger] t.required[k]) is Some {
        assert(str_member(args, t.required[0]) is Some);
    }
    if dispatch_model(t.name, args, exec_enabled) is Ok {
        assert forall|k: int| 0 <= k < t.required.len() implies str_member(args, #[trigger] t.required[k]) is Some by {
            if k == 0 {
                assert(str_member(args, "repo_path"@) is Some);
            }
        }
    }
}

proof fn lemma_tool_12_dispatched(args: ArgValue, exec_enabled: bool)
    ensures
        match dispatch_model("git_commit"@, args, exec_enabled) {
            Ok(ToolCallModel::GitCommit { repo_path, message }) => (member(args, "repo_path"@) matches Some(ArgValue::Str(s)) && s@ == repo_path) && (member(args, "message"@) matches Some(ArgValue::Str(s)) && s@ == message),
            Ok(_) => false,
            Err(_) => true,
        },
        dispatch_model(tool_table()[12].name, args, exec_enabled) is Ok <==> (forall|k: int|
            0 <= k < tool_table()[12].required.len() ==> str_member(args, #[trigger] tool_table()[12].required[k]) is Some),
        dispatch_model(tool_table()[12].name, args, exec_enabled) != Err::<ToolCallModel, Seq<char>>(unknown_tool_message(tool_table()[12].name)),
{
    reveal_strlit("fs_read_file");
    reveal_strlit("fs_write_file");
    reveal_strlit("fs_list_directory");
    reveal_strlit("fs_create_directory");
    reveal_strlit("fs_delete_path");
    reveal_strlit("fs_move_path");
    reveal_strlit("fs_search_files");
    reveal_strlit("fs_edit_file");
    reveal_strlit("fs_grep_content");
    reveal_strlit("git_clone");
    reveal_strlit("git_status");
    reveal_strlit("git_add");
    reveal_strlit("git_commit");
    reveal_strlit("unknown tool: ");
    reveal_strlit("missing required string argument: ");
    assert("git_commit"@.len() != "fs_read_file"@.len());
    assert("git_commit"@ != "fs_read_file"@);
    assert("git_commit"@.len() != "fs_write_file"@.len());
    assert("git_commit"@ != "fs_write_file"@);
    assert("git_commit"@.len() != "fs_list_directory"@.len());
    assert("git_commit"@ != "fs_list_directory"@);
    assert("git_commit"@.len() != "fs_create_directory"@.len());
    assert("git_commit"@ != "fs_create_directory"@);
    assert("git_commit"@.len() != "fs_delete_path"@.len());
    assert("git_commit"@ != "fs_delete_path"@);
    assert("git_commit"@.len() != "fs_move_path"@.len());
    assert("git_commit"@ != "fs_move_path"@);
    assert("git_commit"@.len() != "fs_search_files"@.len());
    assert("git_commit"@ != "fs_search_files"@);
    assert("git_commit"@.len() != "fs_edit_file"@.len());
    assert("git_commit"@ != "fs_edit_file"@);
    assert("git_commit"@.len() != "fs_grep_content"@.len());
    assert("git_commit"@ != "fs_grep_content"@);
    assert("git_commit"@.len() != "git_clone"@.len());
    assert("git_commit"@ != "git_clone"@);
    assert("git_commit"@[4] != "git_status"@[4]);
    assert("git_commit"@ != "git_status"@);
    assert("git_commit"@.len() != "git_add"@.len());
    assert("git_commit"@ != "git_add"@);
    let t = tool_table()[12];
    assert(t.name == "git_commit"@);
    assert(t.required == seq!["repo_path"@, "message"@]);
    assert(unknown_tool_message(t.name)[0] == 'u');
    assert(t.required[0] == "repo_path"@);
    assert(missing_argument_message("repo_path"@)[0] == 'm');
    assert(t.required[1] == "message"@);
    assert(missing_argument_message("message"@)[0] == 'm');
    if forall|k: int| 0 <= k < t.required.len() ==> str_member(args, #[trigger] t.required[k]) is Some {
        assert(str_member(args, t.required[0]) is Some);
        assert(str_member(args, t.required[1]) is Some);
    }
    if dispatch_model(t.name, args, exec_enabled) is Ok {
        assert forall|k: int| 0 <= k < t.required.len() implies str_member(args, #[trigger] t.required[k]) is Some by {
            if k == 0 {
                assert(str_member(args, "repo_path"@) is Some);
            } else if k == 1 {
                assert(str_member(args, "message"@) is Some);
            }
        }
    }
}

proof fn lemma_tool_13_dispatched(args: ArgValue, exec_enabled: bool)
    ensures
        match dispatch_model("git_push"@, args, exec_enabled) {
            Ok(ToolCallModel::GitPush { repo_path, remote, branch }) => (member(args, "repo_path"@) matches Some(ArgValue::Str(s)) && s@ == repo_path) && remote == (match member(args, "remote"@) { Some(ArgValue::Str(s)) => Some(s@), _ => None }) && branch == (match member(args, "branch"@) { Some(ArgValue::Str(s)) => Some(s@), _ => None }),
            Ok(_) => false,
            Err(_) => true,
        },
        dispatch_model(tool_table()[13].name, args, exec_enabled) is Ok <==> (forall|k: int|
            0 <= k < tool_table()[13].required.len() ==> str_member(args, #[trigger] tool_table()[13].required[k]) is Some),
        dispatch_model(tool_table()[13].name, args, exec_enabled) != Err::<ToolCallModel, Seq<char>>(unknown_tool_message(tool_table()[13].name)),
{
    reveal_strlit("fs_read_file");
    reveal_strlit("fs_write_file");
    reveal_strlit("fs_list_directory");
    reveal_strlit("fs_create_directory");
    reveal_strlit("fs_delete_path");
    reveal_strlit("fs_move_path");
    reveal_strlit("fs_search_files");
    reveal_strlit("fs_edit_file");
    reveal_strlit("fs_grep_content");
    reveal_strlit("git_clone");
    reveal_strlit("git_status");
    reveal_strlit("git_add");
    reveal_strlit("git_commit");
    reveal_strlit("git_push");
    reveal_strlit("unknown tool: ");
    reveal_strlit("missing required string argument: ");
    assert("git_push"@.len() != "fs_read_file"@.len());
    assert("git_push"@ != "fs_read_file"@);
    assert("git_push"@.len() != "fs_write_file"@.len());
    assert("git_push"@ != "fs_write_file"@);
    assert("git_push"@.len() != "fs_list_directory"@.len());
    assert("git_push"@ != "fs_list_directory"@);
    assert("git_push"@.len() != "fs_create_directory"@.len());
    assert("git_push"@ != "fs_create_directory"@);
    assert("git_push"@.len() != "fs_delete_path"@.len());
    assert("git_push"@ != "fs_delete_path"@);
    assert("git_push"@.len() != "fs_move_path"@.len());
    assert("git_push"@ != "fs_move_path"@);
    assert("git_push"@.len() != "fs_search_files"@.len());
    assert("git_push"@ != "fs_search_files"@);
    assert("git_push"@.len() != "fs_edit_file"@.len());
    assert("git_push"@ != "fs_edit_file"@);
    assert("git_push"@.len() != "fs_grep_content"@.len());
    assert("git_push"@ != "fs_grep_content"@);
    assert("git_push"@.len() != "git_clone"@.len());
    assert("git_push"@ != "git_clone"@);
    assert("git_push"@.len() != "git_status"@.len());
    assert("git_push"@ != "git_status"@);
    assert("git_push"@.len() != "git_add"@.len());
    assert("git_push"@ != "git_add"@);
    assert("git_push"@.len() != "git_commit"@.len());
    assert("git_push"@ != "git_commit"@);
    let t = tool_table()[13];
    assert(t.name == "git_push"@);
    assert(t.required == seq!["repo_path"@]);
    assert(unknown_tool_message(t.name)[0] == 'u');
    assert(t.required[0] == "repo_path"@);
    assert(missing_argument_message("repo_path"@)[0] == 'm');
    if forall|k: int| 0 <= k < t.required.len() ==> str_member(args, #[trigger] t.required[k]) is Some {
        assert(str_member(args, t.required[0]) is Some);
    }
    if dispatch_model(t.name, args, exec_enabled) is Ok {
        assert forall|k: int| 0 <= k < t.required.len() implies str_member(args, #[trigger] t.required[k]) is Some by {
            if k == 0 {
                assert(str_member(args, "repo_path"@) is Some);
            }
        }
    }
}

proof fn lemma_tool_14_dispatched(args: ArgValue, exec_enabled: bool)
    ensures
        match dispatch_model("git_pull"@, args, exec_enabled) {
            Ok(ToolCallModel::GitPull { repo_path, remote, branch }) => (member(args, "repo_path"@) matches Some(ArgValue::Str(s)) && s@ == repo_path) && remote == (match member(args, "remote"@) { Some(ArgValue::Str(s)) => Some(s@), _ => None }) && branch == (match member(args, "branch"@) { Some(ArgValue::Str(s)) => Some(s@), _ => None }),
            Ok(_) => false,
            Err(_) => true,
        },
        dispatch_model(tool_table()[14].name, args, exec_enabled) is Ok <==> (forall|k: int|
            0 <= k < tool_table()[14].required.len() ==> str_member(args, #[trigger] tool_table()[14].required[k]) is Some),
        dispatch_model(tool_table()[14].name, args, exec_enabled) != Err::<ToolCallModel, Seq<char>>(unknown_tool_message(tool_table()[14].name)),
{
    reveal_strlit("fs_read_file");
    reveal_strlit("fs_write_file");
    reveal_strlit("fs_list_directory");
    reveal_strlit("fs_create_directory");
    reveal_strlit("fs_delete_path");
    reveal_strlit("fs_move_path");
    reveal_strlit("fs_search_files");
    reveal_strlit("fs_edit_file");
    reveal_strlit("fs_grep_content");
    reveal_strlit("git_clone");
    reveal_strlit("git_status");
    reveal_strlit("git_add");
    reveal_strlit("git_commit");
    reveal_strlit("git_push");
    reveal_strlit("git_pull");
    reveal_strlit("unknown tool: ");
    reveal_strlit("missing required string argument: ");
    assert("git_pull"@.len() != "fs_read_file"@.len());
    assert("git_pull"@ != "fs_read_file"@);
    assert("git_pull"@.len() != "fs_write_file"@.len());
    assert("git_pull"@ != "fs_write_file"@);
    assert("git_pull"@.len() != "fs_list_directory"@.len());
    assert("git_pull"@ != "fs_list_directory"@);
    assert("git_pull"@.len() != "fs_create_directory"@.len());
    assert("git_pull"@ != "fs_create_directory"@);
    assert("git_pull"@.len() != "fs_delete_path"@.len());
    assert("git_pull"@ != "fs_delete_path"@);
    assert("git_pull"@.len() != "fs_move_path"@.len());
    assert("git_pull"@ != "fs_move_path"@);
    assert("git_pull"@.len() != "fs_search_files"@.len());
    assert("git_pull"@ != "fs_search_files"@);
    assert("git_pull"@.len() != "fs_edit_file"@.len());
    assert("git_pull"@ != "fs_edit_file"@);
    assert("git_pull"@.len() != "fs_grep_content"@.len());
    assert("git_pull"@ != "fs_grep_content"@);
    assert("git_pull"@.len() != "git_clone"@.len());
    assert("git_pull"@ != "git_clone"@);
    assert("git_pull"@.len() != "git_status"@.len());
    assert("git_pull"@ != "git_status"@);
    assert("git_pull"@.len() != "git_add"@.len());
    assert("git_pull"@ != "git_add"@);
    assert("git_pull"@.len() != "git_commit"@.len());
    assert("git_pull"@ != "git_commit"@);
    assert("git_pull"@[6] != "git_push"@[6]);
    assert("git_pull"@ != "git_push"@);
    let t = tool_table()[14];
    assert(t.name == "git_pull"@);
    assert(t.required == seq!["repo_path"@]);
    assert(unknown_tool_message(t.name)[0] == 'u');
    assert(t.required[0] == "repo_path"@);
    assert(missing_argument_message("repo_path"@)[0] == 'm');
    if forall|k: int| 0 <= k < t.required.len() ==> str_member(args, #[trigger] t.required[k]) is Some {
        assert(str_member(args, t.required[0]) is Some);
    }
    if dispatch_model(t.name, args, exec_enabled) is Ok {
        assert forall|k: int| 0 <= k < t.required.len() implies str_member(args, #[trigger] t.required[k]) is Some by {
            if k == 0 {
                assert(str_member(args, "repo_path"@) is Some);
            }
        }
    }
}

proof fn lemma_tool_15_dispatched(args: ArgValue, exec_enabled: bool)
    ensures
        match dispatch_model("git_branch_list"@, args, exec_enabled) {
            Ok(ToolCallModel::GitBranchList { repo_path }) => (member(args, "repo_path"@) matches Some(ArgValue::Str(s)) && s@ == repo_path),
            Ok(_) => false,
            Err(_) => true,
        },
        dispatch_model(tool_table()[15].name, args, exec_enabled) is Ok <==> (forall|k: int|
            0 <= k < tool_table()[15].required.len() ==> str_member(args, #[trigger] tool_table()[15].required[k]) is Some),
        dispatch_model(tool_table()[15].name, args, exec_enabled) != Err::<ToolCallModel, Seq<char>>(unknown_tool_message(tool_table()[15].name)),
{
    reveal_strlit("fs_read_file");
    reveal_strlit("fs_write_file");
    reveal_strlit("fs_list_directory");
    reveal_strlit("fs_create_directory");
    reveal_strlit("fs_delete_path");
    reveal_strlit("fs_move_path");
    reveal_strlit("fs_search_files");
    reveal_strlit("fs_edit_file");
    reveal_strlit("fs_grep_content");
    reveal_strlit("git_clone");
    reveal_strlit("git_status");
    reveal_strlit("git_add");
    reveal_strlit("git_commit");
    reveal_strlit("git_push");
    reveal_strlit("git_pull");
    reveal_strlit("git_branch_list");
    reveal_strlit("unknown tool: ");
    reveal_strlit("missing required string argument: ");
    assert("git_branch_list"@.len() != "fs_read_file"@.len());
    assert("git_branch_list"@ != "fs_read_file"@);
    assert("git_branch_list"@.len() != "fs_write_file"@.len());
    assert("git_branch_list"@ != "fs_write_file"@);
    assert("git_branch_list"@.len() != "fs_list_directory"@.len());
    assert("git_branch_list"@ != "fs_list_directory"@);
    assert("git_branch_list"@.len() != "fs_create_directory"@.len());
    assert("git_branch_list"@ != "fs_create_directory"@);
    assert("git_branch_list"@.len() != "fs_delete_path"@.len());
    assert("git_branch_list"@ != "fs_delete_path"@);
    assert("git_branch_list"@.len() != "fs_move_path"@.len());
    assert("git_branch_list"@ != "fs_move_path"@);
    assert("git_branch_list"@[0] != "fs_search_files"@[0]);
    assert("git_branch_list"@ != "fs_search_files"@);
    assert("git_branch_list"@.len() != "fs_edit_file"@.len());
    assert("git_branch_list"@ != "fs_edit_file"@);
    assert("git_branch_list"@[0] != "fs_grep_content"@[0]);
    assert("git_branch_list"@ != "fs_grep_content"@);
    assert("git_branch_list"@.len() != "git_clone"@.len());
    assert("git_branch_list"@ != "git_clone"@);
    assert("git_branch_list"@.len() != "git_status"@.len());
    assert("git_branch_list"@ != "git_status"@);
    assert("git_branch_list"@.len() != "git_add"@.len());
    assert("git_branch_list"@ != "git_add"@);
    assert("git_branch_list"@.len() != "git_commit"@.len());
    assert("git_branch_list"@ != "git_commit"@);
    assert("git_branch_list"@.len() != "git_push"@.len());
    assert("git_branch_list"@ != "git_push"@);
    assert("git_branch_list"@.len() != "git_pull"@.len());
    assert("git_branch_list"@ != "git_pull"@);
    let t = tool_table()[15];
    assert(t.name == "git_branch_list"@);
    assert(t.required == seq!["repo_path"@]);
    assert(unknown_tool_message(t.name)[0] == 'u');
    assert(t.required[0] == "repo_path"@);
    assert(missing_argument_message("repo_path"@)[0] == 'm');
    if forall|k: int| 0 <= k < t.required.len() ==> str_member(args, #[trigger] t.required[k]) is Some {
        assert(str_member(args, t.required[0]) is Some);
    }
    if dispatch_model(t.name, args, exec_enabled) is Ok {
        assert forall|k: int| 0 <= k < t.required.len() implies str_member(args, #[trigger] t.required[k]) is Some by {
            if k == 0 {
                assert(str_member(args, "repo_path"@) is Some);
            }
        }
    }
}

proof fn lemma_tool_16_dispatched(args: ArgValue, exec_enabled: bool)
    ensures
        match dispatch_model("git_checkout"@, args, exec_enabled) {
            Ok(ToolCallModel::GitCheckout { repo_path, branch, create }) => (member(args, "repo_path"@) matches Some(ArgValue::Str(s)) && s@ == repo_path) && (member(args, "branch"@) matches Some(ArgValue::Str(s)) && s@ == branch) && create == (match member(args, "create"@) { Some(ArgValue::Bool(b)) => b, _ => false }),
            Ok(_) => false,
            Err(_) => true,
        },
        dispatch_model(tool_table()[16].name, args, exec_enabled) is Ok <==> (forall|k: int|
            0 <= k < tool_table()[16].required.len() ==> str_member(args, #[trigger] tool_table()[16].required[k]) is Some),
        dispatch_model(tool_table()[16].name, args, exec_enabled) != Err::<ToolCallModel, Seq<char>>(unknown_tool_message(tool_table()[16].name)),
{
    reveal_strlit("fs_read_file");
    reveal_strlit("fs_write_file");
    reveal_strlit("fs_list_directory");
    reveal_strlit("fs_create_directory");
    reveal_strlit("fs_delete_path");
    reveal_strlit("fs_move_path");
    reveal_strlit("fs_search_files");
    reveal_strlit("fs_edit_file");
    reveal_strlit("fs_grep_content");
    reveal_strlit("git_clone");
    reveal_strlit("git_status");
    reveal_strlit("git_add");
    reveal_strlit("git_commit");
    reveal_strlit("git_push");
    reveal_strlit("git_pull");
    reveal_strlit("git_branch_list");
    reveal_strlit("git_checkout");
    reveal_strlit("unknown tool: ");
    reveal_strlit("missing required string argument: ");
    assert("git_checkout"@[0] != "fs_read_file"@[0]);
    assert("git_checkout"@ != "fs_read_file"@);
    assert("git_checkout"@.len() != "fs_write_file"@.len());
    assert("git_checkout"@ != "fs_write_file"@);
    assert("git_checkout"@.len() != "fs_list_directory"@.len());
    assert("git_checkout"@ != "fs_list_directory"@);
    assert("git_checkout"@.len() != "fs_create_directory"@.len());
    assert("git_checkout"@ != "fs_create_directory"@);
    assert("git_checkout"@.len() != "fs_delete_path"@.len());
    assert("git_checkout"@ != "fs_delete_path"@);
    assert("git_checkout"@[0] != "fs_move_path"@[0]);
    assert("git_checkout"@ != "fs_move_path"@);
    assert("git_checkout"@.len() != "fs_search_files"@.len());
    assert("git_checkout"@ != "fs_search_files"@);
    assert("git_checkout"@[0] != "fs_edit_file"@[0]);
    assert("git_checkout"@ != "fs_edit_file"@);
    assert("git_checkout"@.len() != "fs_grep_content"@.len());
    assert("git_checkout"@ != "fs_grep_content"@);
    assert("git_checkout"@.len() != "git_clone"@.len());
    assert("git_checkout"@ != "git_clone"@);
    assert("git_checkout"@.len() != "git_status"@.len());
    assert("git_checkout"@ != "git_status"@);
    assert("git_checkout"@.len() != "git_add"@.len());
    assert("git_checkout"@ != "git_add"@);
    assert("git_checkout"@.len() != "git_commit"@.len());
    assert("git_checkout"@ != "git_commit"@);
    assert("git_checkout"@.len() != "git_push"@.len());
    assert("git_checkout"@ != "git_push"@);
    assert("git_checkout"@.len() != "git_pull"@.len());
    assert("git_checkout"@ != "git_pull"@);
    assert("git_checkout"@.len() != "git_branch_list"@.len());
    assert("git_checkout"@ != "git_branch_list"@);
    let t = tool_table()[16];
    assert(t.name == "git_checkout"@);
    assert(t.required == seq!["repo_path"@, "branch"@]);
    assert(unknown_tool_message(t.name)[0] == 'u');
    assert(t.required[0] == "repo_path"@);
    assert(missing_argument_message("repo_path"@)[0] == 'm');
    assert(t.required[1] == "branch"@);
    assert(missing_argument_message("branch"@)[0] == 'm');
    if forall|k: int| 0 <= k < t.required.len() ==> str_member(args, #[trigger] t.required[k]) is Some {
        assert(str_member(args, t.required[0]) is Some);
        assert(str_member(args, t.required[1]) is Some);
    }
    if dispatch_model(t.name, args, exec_enabled) is Ok {
        assert forall|k: int| 0 <= k < t.required.len() implies str_member(args, #[trigger] t.required[k]) is Some by {
            if k == 0 {
                assert(str_member(args, "repo_path"@) is Some);
            } else if k == 1 {
                assert(str_member(args, "branch"@) is Some);
            }
        }
    }
}

proof fn lemma_tool_17_dispatched(args: ArgValue, exec_enabled: bool)
    ensures
        match dispatch_model("git_diff"@, args, exec_enabled) {
            Ok(ToolCallModel::GitDiff { repo_path, staged }) => (member(args, "repo_path"@) matches Some(ArgValue::Str(s)) && s@ == repo_path) && staged == (match member(args, "staged"@) { Some(ArgValue::Bool(b)) => b, _ => false }),
            Ok(_) => false,
            Err(_) => true,
        },
        dispatch_model(tool_table()[17].name, args, exec_enabled) is Ok <==> (forall|k: int|
            0 <= k < tool_table()[17].required.len() ==> str_member(args, #[trigger] tool_table()[17].required[k]) is Some),
        dispatch_model(tool_table()[17].name, args, exec_enabled) != Err::<ToolCallModel, Seq<char>>(unknown_tool_message(tool_table()[17].name)),
{
    reveal_strlit("fs_read_file");
    reveal_strlit("fs_write_file");
    reveal_strlit("fs_list_directory");
    reveal_strlit("fs_create_directory");
    reveal_strlit("fs_delete_path");
    reveal_strlit("fs_move_path");
    reveal_strlit("fs_search_files");
    reveal_strlit("fs_edit_file");
    reveal_strlit("fs_grep_content");
    reveal_strlit("git_clone");
    reveal_strlit("git_status");
    reveal_strlit("git_add");
    reveal_strlit("git_commit");
    reveal_strlit("git_push");
    reveal_strlit("git_pull");
    reveal_strlit("git_branch_list");
    reveal_strlit("git_checkout");
    reveal_strlit("git_diff");
    reveal_strlit("unknown tool: ");
    reveal_strlit("missing required string argument: ");
    assert("git_diff"@.len() != "fs_read_file"@.len());
    assert("git_diff"@ != "fs_read_file"@);
    assert("git_diff"@.len() != "fs_write_file"@.len());
    assert("git_diff"@ != "fs_write_file"@);
    assert("git_diff"@.len() != "fs_list_directory"@.len());
    assert("git_diff"@ != "fs_list_directory"@);
    assert("git_diff"@.len() != "fs_create_directory"@.len());
    assert("git_diff"@ != "fs_create_directory"@);
    assert("git_diff"@.len() != "fs_delete_path"@.len());
    assert("git_diff"@ != "fs_delete_path"@);
    assert("git_diff"@.len() != "fs_move_path"@.len());
    assert("git_diff"@ != "fs_move_path"@);
    assert("git_diff"@.len() != "fs_search_files"@.len());
    assert("git_diff"@ != "fs_search_files"@);
    assert("git_diff"@.len() != "fs_edit_file"@.len());
    assert("git_diff"@ != "fs_edit_file"@);
    assert("git_diff"@.len() != "fs_grep_content"@.len());
    assert("git_diff"@ != "fs_grep_content"@);
    assert("git_diff"@.len() != "git_clone"@.len());
    assert("git_diff"@ != "git_clone"@);
    assert("git_diff"@.len() != "git_status"@.len());
    assert("git_diff"@ != "git_status"@);
    assert("git_diff"@.len() != "git_add"@.len());
    assert("git_diff"@ != "git_add"@);
    assert("git_diff"@.len() != "git_commit"@.len());
    assert("git_diff"@ != "git_commit"@);
    assert("git_diff"@[4] != "git_push"@[4]);
    assert("git_diff"@ != "git_push"@);
    assert("git_diff"@[4] != "git_pull"@[4]);
    assert("git_diff"@ != "git_pull"@);
    assert("git_diff"@.len() != "git_branch_list"@.len());
    assert("git_diff"@ != "git_branch_list"@);
    assert("git_diff"@.len() != "git_checkout"@.len());
    assert("git_diff"@ != "git_checkout"@);
    let t = tool_table()[17];
    assert(t.name == "git_diff"@);
    assert(t.required == seq!["repo_path"@]);
    assert(unknown_tool_message(t.name)[0] == 'u');
    assert(t.required[0] == "repo_path"@);
    assert(missing_argument_message("repo_path"@)[0] == 'm');
    if forall|k: int| 0 <= k < t.required.len() ==> str_member(args, #[trigger] t.required[k]) is Some {
        assert(str_member(args, t.required[0]) is Some);
    }
    if dispatch_model(t.name, args, exec_enabled) is Ok {
        assert forall|k: int| 0 <= k < t.required.len() implies str_member(args, #[trigger] t.required[k]) is Some by {
            if k == 0 {
                assert(str_member(args, "repo_path"@) is Some);
            }
        }
    }
}

proof fn lemma_tool_18_dispatched(args: ArgValue, exec_enabled: bool)
    ensures
        match dispatch_model("git_log"@, args, exec_enabled) {
            Ok(ToolCallModel::GitLog { repo_path, limit }) => (member(args, "repo_path"@) matches Some(ArgValue::Str(s)) && s@ == repo_path) && limit == (match member(args, "limit"@) { Some(ArgValue::UInt(n)) => (n % 0x1_0000_0000) as u32, _ => 20u32 }),
            Ok(_) => false,
            Err(_) => true,
        },
        dispatch_model(tool_table()[18].name, args, exec_enabled) is Ok <==> (forall|k: int|
            0 <= k < tool_table()[18].required.len() ==> str_member(args, #[trigger] tool_table()[18].required[k]) is Some),
        dispatch_model(tool_table()[18].name, args, exec_enabled) != Err::<ToolCallModel, Seq<char>>(unknown_tool_message(tool_table()[18].name)),
{
    reveal_strlit("fs_read_file");
    reveal_strlit("fs_write_file");
    reveal_strlit("fs_list_directory");
    reveal_strlit("fs_create_directory");
    reveal_strlit("fs_delete_path");
    reveal_strlit("fs_move_path");
    reveal_strlit("fs_search_files");
    reveal_strlit("fs_edit_file");
    reveal_strlit("fs_grep_content");
    reveal_strlit("git_clone");
    reveal_strlit("git_status");
    reveal_strlit("git_add");
    reveal_strlit("git_commit");
    reveal_strlit("git_push");
    reveal_strlit("git_pull");
    reveal_strlit("git_branch_list");
    reveal_strlit("git_checkout");
    reveal_strlit("git_diff");
    reveal_strlit("git_log");
    reveal_strlit("unknown tool: ");
    reveal_strlit("missing required string argument: ");
    assert("git_log"@.len() != "fs_read_file"@.len());
    assert("git_log"@ != "fs_read_file"@);
    assert("git_log"@.len() != "fs_write_file"@.len());
    assert("git_log"@ != "fs_write_file"@);
    assert("git_log"@.len() != "fs_list_directory"@.len());
    assert("git_log"@ != "fs_list_directory"@);
    assert("git_log"@.len() != "fs_create_directory"@.len());
    assert("git_log"@ != "fs_create_directory"@);
    assert("git_log"@.len() != "fs_delete_path"@.len());
    assert("git_log"@ != "fs_delete_path"@);
    assert("git_log"@.len() != "fs_move_path"@.len());
    assert("git_log"@ != "fs_move_path"@);
    assert("git_log"@.len() != "fs_search_files"@.len());
    assert("git_log"@ != "fs_search_files"@);
    assert("git_log"@.len() != "fs_edit_file"@.len());
    assert("git_log"@ != "fs_edit_file"@);
    assert("git_log"@.len() != "fs_grep_content"@.len());
    assert("git_log"@ != "fs_grep_content"@);
    assert("git_log"@.len() != "git_clone"@.len());
    assert("git_log"@ != "git_clone"@);
    assert("git_log"@.len() != "git_status"@.len());
    assert("git_log"@ != "git_status"@);
    assert("git_log"@[4] != "git_add"@[4]);
    assert("git_log"@ != "git_add"@);
    assert("git_log"@.len() != "git_commit"@.len());
    assert("git_log"@ != "git_commit"@);
    assert("git_log"@.len() != "git_push"@.len());
    assert("git_log"@ != "git_push"@);
    assert("git_log"@.len() != "git_pull"@.len());
    assert("git_log"@ != "git_pull"@);
    assert("git_log"@.len() != "git_branch_list"@.len());
    assert("git_log"@ != "git_branch_list"@);
    assert("git_log"@.len() != "git_checkout"@.len());
    assert("git_log"@ != "git_checkout"@);
    assert("git_log"@.len() != "git_diff"@.len());
    assert("git_log"@ != "git_diff"@);
    let t = tool_table()[18];
    assert(t.name == "git_log"@);
    assert(t.required == seq!["repo_path"@]);
    assert(unknown_tool_message(t.name)[0] == 'u');
    assert(t.required[0] == "repo_path"@);
    assert(missing_argument_message("repo_path"@)[0] == 'm');
    if forall|k: int| 0 <= k < t.required.len() ==> str_member(args, #[trigger] t.required[k]) is Some {
        assert(str_member(args, t.required[0]) is Some);
    }
    if dispatch_model(t.name, args, exec_enabled) is Ok {
        assert forall|k: int| 0 <= k < t.required.len() implies str_member(args, #[trigger] t.required[k]) is Some by {
            if k == 0 {
                assert(str_member(args, "repo_path"@) is Some);
            }
        }
    }
}

proof fn lemma_exec_tool_dispatched(args: ArgValue)
    ensures
        match dispatch_model("exec_command"@, args, true) {
            Ok(ToolCallModel::ExecCommand { repo_path, command, timeout_secs }) => (member(args, "repo_path"@) matches Some(ArgValue::Str(s)) && s@ == repo_path) && (member(args, "command"@) matches Some(ArgValue::Str(s)) && s@ == command) && timeout_secs == (match member(args, "timeout_secs"@) { Some(ArgValue::UInt(n)) => Some(n), _ => None }),
            Ok(_) => false,
            Err(_) => true,
        },
        dispatch_model(exec_tool_model().name, args, true) is Ok <==> (forall|k: int|
            0 <= k < exec_tool_model().required.len() ==> str_member(args, #[trigger] exec_tool_model().required[k]) is Some),
        dispatch_model(exec_tool_model().name, args, true) != Err::<ToolCallModel, Seq<char>>(unknown_tool_message(exec_tool_model().name)),
{
    reveal_strlit("fs_read_file");
    reveal_strlit("fs_write_file");
    reveal_strlit("fs_list_directory");
    reveal_strlit("fs_create_directory");
    reveal_strlit("fs_delete_path");
    reveal_strlit("fs_move_path");
    reveal_strlit("fs_search_files");
    reveal_strlit("fs_edit_file");
    reveal_strlit("fs_grep_content");
    reveal_strlit("git_clone");
    reveal_strlit("git_status");
    reveal_strlit("git_add");
    reveal_strlit("git_commit");
    reveal_strlit("git_push");
    reveal_strlit("git_pull");
    reveal_strlit("git_branch_list");
    reveal_strlit("git_checkout");
    reveal_strlit("git_diff");
    reveal_strlit("git_log");
    reveal_strlit("exec_command");
    reveal_strlit("unknown tool: ");
    reveal_strlit("missing required string argument: ");
    assert("exec_command"@[0] != "fs_read_file"@[0]);
    assert("exec_command"@ != "fs_read_file"@);
    assert("exec_command"@.len() != "fs_write_file"@.len());
    assert("exec_command"@ != "fs_write_file"@);
    assert("exec_command"@.len() != "fs_list_directory"@.len());
    assert("exec_command"@ != "fs_list_directory"@);
    assert("exec_command"@.len() != "fs_create_directory"@.len());
    assert("exec_command"@ != "fs_create_directory"@);
    assert("exec_command"@.len() != "fs_delete_path"@.len());
    assert("exec_command"@ != "fs_delete_path"@);
    assert("exec_command"@[0] != "fs_move_path"@[0]);
    assert("exec_command"@ != "fs_move_path"@);
    assert("exec_command"@.len() != "fs_search_files"@.len());
    assert("exec_command"@ != "fs_search_files"@);
    assert("exec_command"@[0] != "fs_edit_file"@[0]);
    assert("exec_command"@ != "fs_edit_file"@);
    assert("exec_command"@.len() != "fs_grep_content"@.len());
    assert("exec_command"@ != "fs_grep_content"@);
    assert("exec_command"@.len() != "git_clone"@.len());
    assert("exec_command"@ != "git_clone"@);
    assert("exec_command"@.len() != "git_status"@.len());
    assert("exec_command"@ != "git_status"@);
    assert("exec_command"@.len() != "git_add"@.len());
    assert("exec_command"@ != "git_add"@);
    assert("exec_command"@.len() != "git_commit"@.len());
    assert("exec_command"@ != "git_commit"@);
    assert("exec_command"@.len() != "git_push"@.len());
    assert("exec_command"@ != "git_push"@);
    assert("exec_command"@.len() != "git_pull"@.len());
    assert("exec_command"@ != "git_pull"@);
    assert("exec_command"@.len() != "git_branch_list"@.len());
    assert("exec_command"@ != "git_branch_list"@);
    assert("exec_command"@[0] != "git_checkout"@[0]);
    assert("exec_command"@ != "git_checkout"@);
    assert("exec_command"@.len() != "git_diff"@.len());
    assert("exec_command"@ != "git_diff"@);
    assert("exec_command"@.len() != "git_log"@.len());
    assert("exec_command"@ != "git_log"@);
    let t = exec_tool_model();
    assert(t.name == "exec_command"@);
    assert(t.required == seq!["repo_path"@, "command"@]);
    assert(unknown_tool_message(t.name)[0] == 'u');
    assert(t.required[0] == "repo_path"@);
    assert(missing_argument_message("repo_path"@)[0] == 'm');
    assert(t.required[1] == "command"@);
    assert(missing_argument_message("command"@)[0] == 'm');
    if forall|k: int| 0 <= k < t.required.len() ==> str_member(args, #[trigger] t.required[k]) is Some {
        assert(str_member(args, t.required[0]) is Some);
        assert(str_member(args, t.required[1]) is Some);
    }
    if dispatch_model(t.name, args, true) is Ok {
        assert forall|k: int| 0 <= k < t.required.len() implies str_member(args, #[trigger] t.required[k]) is Some by {
            if k == 0 {
                assert(str_member(args, "repo_path"@) is Some);
            } else if k == 1 {
                assert(str_member(args, "command"@) is Some);
            }
        }
    }
}

/// Every listed tool is one that a call can name: the call succeeds
/// exactly when each parameter that the description marks required is given
/// as a string, and it is never refused as an unknown tool.  With the shell
/// tool enabled this holds of it too.
pub proof fn lemma_listed_tool_is_dispatched(i: int, args: ArgValue, exec_enabled: bool)
    requires
        0 <= i < listed_tools(exec_enabled).len(),
    ensures
        dispatch_model(listed_tools(exec_enabled)[i].name, args, exec_enabled) is Ok <==> (forall|k: int|
            0 <= k < listed_tools(exec_enabled)[i].required.len() ==> str_member(args, #[trigger] listed_tools(exec_enabled)[i].required[k]) is Some),
        dispatch_model(listed_tools(exec_enabled)[i].name, args, exec_enabled) != Err::<ToolCallModel, Seq<char>>(unknown_tool_message(listed_tools(exec_enabled)[i].name)),
{
    if i < tool_table().len() {
        assert(listed_tools(exec_enabled)[i] == tool_table()[i]);
        if i == 0 {
            lemma_tool_0_dispatched(args, exec_enabled);
        } else if i == 1 {
            lemma_tool_1_dispatched(args, exec_enabled);
        } else if i == 2 {
            lemma_tool_2_dispatched(args, exec_enabled);
        } else if i == 3 {
            lemma_tool_3_dispatched(args, exec_enabled);
        } else if i == 4 {
            lemma_tool_4_dispatched(args, exec_enabled);
        } else if i == 5 {
            lemma_tool_5_dispatched(args, exec_enabled);
        } else if i == 6 {
            lemma_tool_6_dispatched(args, exec_enabled);
        } else if i == 7 {
            lemma_tool_7_dispatched(args, exec_enabled);
        } else if i == 8 {
            lemma_tool_8_dispatched(args, exec_enabled);
        } else if i == 9 {
            lemma_tool_9_dispatched(args, exec_enabled);
        } else if i == 10 {
            lemma_tool_10_dispatched(args, exec_enabled);
        } else if i == 11 {
            lemma_tool_11_dispatched(args, exec_enabled);
        } else if i == 12 {
            lemma_tool_12_dispatched(args, exec_enabled);
        } else if i == 13 {
            lemma_tool_13_dispatched(args, exec_enabled);
        } else if i == 14 {
            lemma_tool_14_dispatched(args, exec_enabled);
        } else if i == 15 {
            lemma_tool_15_dispatched(args, exec_enabled);
        } else if i == 16 {
            lemma_tool_16_dispatched(args, exec_enabled);
        } else if i == 17 {
            lemma_tool_17_dispatched(args, exec_enabled);
        } else if i == 18 {
            lemma_tool_18_dispatched(args, exec_enabled);
        }
    } else {
        assert(exec_enabled);
        assert(listed_tools(exec_enabled)[i] == exec_tool_model());
        lemma_exec_tool_dispatched(args);
    }
}

/// A tool call carries the arguments of the request, read by their names:
/// a required string is the string member of that name; an optional string
/// or count is the member when it is a string or a non-negative integer, and
/// absent otherwise; a flag is the boolean member, and `false` when there is
/// none; the commit count of `git_log` is the integer member cut to 32 bits,
/// and 20 when there is none; the files of `git_add` are the string items of
/// the array member, and none when there is no array.  Each name gives a
/// call of its own tool.
pub proof fn lemma_dispatch_reads_arguments(args: ArgValue, exec_enabled: bool)
    ensures
        match dispatch_model("fs_read_file"@, args, exec_enabled) {
            Ok(ToolCallModel::FsReadFile { path }) => (member(args, "path"@) matches Some(ArgValue::Str(s)) && s@ == path),
            Ok(_) => false,
            Err(_) => true,
        },
        match dispatch_model("fs_write_file"@, args, exec_enabled) {
            Ok(ToolCallModel::FsWriteFile { path, content }) => (member(args, "path"@) matches Some(ArgValue::Str(s)) && s@ == path) && (member(args, "content"@) matches Some(ArgValue::Str(s)) && s@ == content),
            Ok(_) => false,
            Err(_) => true,
        },
        match dispatch_model("fs_list_directory"@, args, exec_enabled) {
            Ok(ToolCallModel::FsListDirectory { path }) => (member(args, "path"@) matches Some(ArgValue::Str(s)) && s@ == path),
            Ok(_) => false,
            Err(_) => true,
        },
        match dispatch_model("fs_create_directory"@, args, exec_enabled) {
            Ok(ToolCallModel::FsCreateDirectory { path }) => (member(args, "path"@) matches Some(ArgValue::Str(s)) && s@ == path),
            Ok(_) => false,
            Err(_) => true,
        },
        match dispatch_model("fs_delete_path"@, args, exec_enabled) {
            Ok(ToolCallModel::FsDeletePath { path }) => (member(args, "path"@) matches Some(ArgValue::Str(s)) && s@ == path),
            Ok(_) => false,
            Err(_) => true,
        },
        match dispatch_model("fs_move_path"@, args, exec_enabled) {
            Ok(ToolCallModel::FsMovePath { source, destination }) => (member(args, "source"@) matches Some(ArgValue::Str(s)) && s@ == source) && (member(args, "destination"@) matches Some(ArgValue::Str(s)) && s@ == destination),
            Ok(_) => false,
            Err(_) => true,
        },
        match dispatch_model("fs_search_files"@, args, exec_enabled) {
            Ok(ToolCallModel::FsSearchFiles { path, pattern }) => (member(args, "path"@) matches Some(ArgValue::Str(s)) && s@ == path) && (member(args, "pattern"@) matches Some(ArgValue::Str(s)) && s@ == pattern),
            Ok(_) => false,
            Err(_) => true,
        },
        match dispatch_model("fs_edit_file"@, args, exec_enabled) {
            Ok(ToolCallModel::FsEditFile { path, old_str, new_str }) => (member(args, "path"@) matches Some(ArgValue::Str(s)) && s@ == path) && (member(args, "old_str"@) matches Some(ArgValue::Str(s)) && s@ == old_str) && (member(args, "new_str"@) matches Some(ArgValue::Str(s)) && s@ == new_str),
            Ok(_) => false,
            Err(_) => true,
        },
        match dispatch_model("fs_grep_content"@, args, exec_enabled) {
            Ok(ToolCallModel::FsGrepContent { path, pattern }) => (member(args, "path"@) matches Some(ArgValue::Str(s)) && s@ == path) && (member(args, "pattern"@) matches Some(ArgValue::Str(s)) && s@ == pattern),
            Ok(_) => false,
            Err(_) => true,
        },
        match dispatch_model("git_clone"@, args, exec_enabled) {
            Ok(ToolCallModel::GitClone { url, destination, branch }) => (member(args, "url"@) matches Some(ArgValue::Str(s)) && s@ == url) && (member(args, "destination"@) matches Some(ArgValue::Str(s)) && s@ == destination) && branch == (match member(args, "branch"@) { Some(ArgValue::Str(s)) => Some(s@), _ => None }),
            Ok(_) => false,
            Err(_) => true,
        },
        match dispatch_model("git_status"@, args, exec_enabled) {
            Ok(ToolCallModel::GitStatus { repo_path }) => (member(args, "repo_path"@) matches Some(ArgValue::Str(s)) && s@ == repo_path),
            Ok(_) => false,
            Err(_) => true,
        },
        match dispatch_model("git_add"@, args, exec_enabled) {
            Ok(ToolCallModel::GitAdd { repo_path, files }) => (member(args, "repo_path"@) matches Some(ArgValue::Str(s)) && s@ == repo_path) && files == (match member(args, "files"@) { Some(ArgValue::Array(items)) => text_items(items@), _ => seq![] }),
            Ok(_) => false,
            Err(_) => true,
        },
        match dispatch_model("git_commit"@, args, exec_enabled) {
            Ok(ToolCallModel::GitCommit { repo_path, message }) => (member(args, "repo_path"@) matches Some(ArgValue::Str(s)) && s@ == repo_path) && (member(args, "message"@) matches Some(ArgValue::Str(s)) && s@ == message),
            Ok(_) => false,
            Err(_) => true,
        },
        match dispatch_model("git_push"@, args, exec_enabled) {
            Ok(ToolCallModel::GitPush { repo_path, remote, branch }) => (member(args, "repo_path"@) matches Some(ArgValue::Str(s)) && s@ == repo_path) && remote == (match member(args, "remote"@) { Some(ArgValue::Str(s)) => Some(s@), _ => None }) && branch == (match member(args, "branch"@) { Some(ArgValue::Str(s)) => Some(s@), _ => None }),
            Ok(_) => false,
            Err(_) => true,
        },
        match dispatch_model("git_pull"@, args, exec_enabled) {
            Ok(ToolCallModel::GitPull { repo_path, remote, branch }) => (member(args, "repo_path"@) matches Some(ArgValue::Str(s)) && s@ == repo_path) && remote == (match member(args, "remote"@) { Some(ArgValue::Str(s)) => Some(s@), _ => None }) && branch == (match member(args, "branch"@) { Some(ArgValue::Str(s)) => Some(s@), _ => None }),
            Ok(_) => false,
            Err(_) => true,
        },
        match dispatch_model("git_branch_list"@, args, exec_enabled) {
            Ok(ToolCallModel::GitBranchList { repo_path }) => (member(args, "repo_path"@) matches Some(ArgValue::Str(s)) && s@ == repo_path),
            Ok(_) => false,
            Err(_) => true,
        },
        match dispatch_model("git_checkout"@, args, exec_enabled) {
            Ok(ToolCallModel::GitCheckout { repo_path, branch, create }) => (member(args, "repo_path"@) matches Some(ArgValue::Str(s)) && s@ == repo_path) && (member(args, "branch"@) matches Some(ArgValue::Str(s)) && s@ == branch) && create == (match member(args, "create"@) { Some(ArgValue::Bool(b)) => b, _ => false }),
            Ok(_) => false,
            Err(_) => true,
        },
        match dispatch_model("git_diff"@, args, exec_enabled) {
            Ok(ToolCallModel::GitDiff { repo_path, staged }) => (member(args, "repo_path"@) matches Some(ArgValue::Str(s)) && s@ == repo_path) && staged == (match member(args, "staged"@) { Some(ArgValue::Bool(b)) => b, _ => false }),
            Ok(_) => false,
            Err(_) => true,
        },
        match dispatch_model("git_log"@, args, exec_enabled) {
            Ok(ToolCallModel::GitLog { repo_path, limit }) => (member(args, "repo_path"@) matches Some(ArgValue::Str(s)) && s@ == repo_path) && limit == (match member(args, "limit"@) { Some(ArgValue::UInt(n)) => (n % 0x1_0000_0000) as u32, _ => 20u32 }),
            Ok(_) => false,
            Err(_) => true,
        },
        exec_enabled ==> match dispatch_model("exec_command"@, args, true) {
            Ok(ToolCallModel::ExecCommand { repo_path, command, timeout_secs }) => (member(args, "repo_path"@) matches Some(ArgValue::Str(s)) && s@ == repo_path) && (member(args, "command"@) matches Some(ArgValue::Str(s)) && s@ == command) && timeout_secs == (match member(args, "timeout_secs"@) { Some(ArgValue::UInt(n)) => Some(n), _ => None }),
            Ok(_) => false,
            Err(_) => true,
        },
{
    lemma_tool_0_dispatched(args, exec_enabled);
    assert(tool_table()[0].name == "fs_read_file"@);
    lemma_tool_1_dispatched(args, exec_enabled);
    assert(tool_table()[1].name == "fs_write_file"@);
    lemma_tool_2_dispatched(args, exec_enabled);
    assert(tool_table()[2].name == "fs_list_directory"@);
    lemma_tool_3_dispatched(args, exec_enabled);
    assert(tool_table()[3].name == "fs_create_directory"@);
    lemma_tool_4_dispatched(args, exec_enabled);
    assert(tool_table()[4].name == "fs_delete_path"@);
    lemma_tool_5_dispatched(args, exec_enabled);
    assert(tool_table()[5].name == "fs_move_path"@);
    lemma_tool_6_dispatched(args, exec_enabled);
    assert(tool_table()[6].name == "fs_search_files"@);
    lemma_tool_7_dispatched(args, exec_enabled);
    assert(tool_table()[7].name == "fs_edit_file"@);
    lemma_tool_8_dispatched(args, exec_enabled);
    assert(tool_table()[8].name == "fs_grep_content"@);
    lemma_tool_9_dispatched(args, exec_enabled);
    assert(tool_table()[9].name == "git_clone"@);
    lemma_tool_10_dispatched(args, exec_enabled);
    assert(tool_table()[10].name == "git_status"@);
    lemma_tool_11_dispatched(args, exec_enabled);
    assert(tool_table()[11].name == "git_add"@);
    lemma_tool_12_dispatched(args, exec_enabled);
    assert(tool_table()[12].name == "git_commit"@);
    lemma_tool_13_dispatched(args, exec_enabled);
    assert(tool_table()[13].name == "git_push"@);
    lemma_tool_14_dispatched(args, exec_enabled);
    assert(tool_table()[14].name == "git_pull"@);
    lemma_tool_15_dispatched(args, exec_enabled);
    assert(tool_table()[15].name == "git_branch_list"@);
    lemma_tool_16_dispatched(args, exec_enabled);
    assert(tool_table()[16].name == "git_checkout"@);
    lemma_tool_17_dispatched(args, exec_enabled);
    assert(tool_table()[17].name == "git_diff"@);
    lemma_tool_18_dispatched(args, exec_enabled);
    assert(tool_table()[18].name == "git_log"@);
    if exec_enabled {
        lemma_exec_tool_dispatched(args);
    }
}

} // verus!
