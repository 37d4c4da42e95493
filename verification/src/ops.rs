use vstd::prelude::*;
use crate::classify::{check_status, says_not_found, stderr_says_not_found};
use crate::error::VaultError;
use crate::json::json_of;
use crate::payload::{build_payload, login_payload, note_payload};
use crate::records::{
    EntryView, ItemView, RbwItem, entries_of, entry_views, item_of, parse_entries, parse_item,
};
use crate::text::trimmed;

verus! {

/// What a capture-mode run of the vault tool returned: its exit code
/// (`None` when the process was killed before exiting), the bytes of its
/// standard output, and its error text.
pub struct CmdOutput {
    pub code: Option<i32>,
    pub stdout: Vec<u8>,
    pub stderr: String,
}

impl CmdOutput {
    /// The tool's success convention: exit code zero.
    pub open spec fn succeeded(&self) -> bool {
        self.code == Some(0i32)
    }
}

/// A piped-write run to perform: the subcommand arguments, and the payload
/// to stream to the tool's input channel.
pub struct PipedCmd {
    pub args: Vec<String>,
    pub stdin: String,
}

/// Zero exit is the tool's success convention.
pub fn exit_ok(code: Option<i32>) -> (r: bool)
    ensures
        r == (code == Some(0i32)),
{
    match code {
        Some(c) => c == 0,
        None => false,
    }
}

/// Arguments of the catalog listing subcommand.
pub fn list_request() -> (r: Vec<String>)
    ensures
        r@.len() == 2,
        r@[0]@ == "list"@,
        r@[1]@ == "--raw"@,
{
    let mut v: Vec<String> = Vec::new();
    v.push("list".to_owned());
    v.push("--raw".to_owned());
    v
}

/// Arguments of the single-item fetch subcommand, scoped to a folder.
pub fn get_request(name: &str, folder: &str) -> (r: Vec<String>)
    ensures
        r@.len() == 5,
        r@[0]@ == "get"@,
        r@[1]@ == "--raw"@,
        r@[2]@ == "--folder"@,
        r@[3]@ == folder@,
        r@[4]@ == name@,
{
    let mut v: Vec<String> = Vec::new();
    v.push("get".to_owned());
    v.push("--raw".to_owned());
    v.push("--folder".to_owned());
    v.push(folder.to_owned());
    v.push(name.to_owned());
    v
}

/// Arguments of the removal subcommand, scoped to a folder.
pub fn remove_request(name: &str, folder: &str) -> (r: Vec<String>)
    ensures
        r@.len() == 4,
        r@[0]@ == "remove"@,
        r@[1]@ == "--folder"@,
        r@[2]@ == folder@,
        r@[3]@ == name@,
{
    let mut v: Vec<String> = Vec::new();
    v.push("remove".to_owned());
    v.push("--folder".to_owned());
    v.push(folder.to_owned());
    v.push(name.to_owned());
    v
}

/// Arguments of the "is the vault unlocked" probe.
pub fn unlocked_request() -> (r: Vec<String>)
    ensures
        r@.len() == 1,
        r@[0]@ == "unlocked"@,
{
    let mut v: Vec<String> = Vec::new();
    v.push("unlocked".to_owned());
    v
}

/// Arguments of the interactive unlock subcommand.
pub fn unlock_request() -> (r: Vec<String>)
    ensures
        r@.len() == 1,
        r@[0]@ == "unlock"@,
{
    let mut v: Vec<String> = Vec::new();
    v.push("unlock".to_owned());
    v
}

/// The unlock guard's first decision: a non-zero exit of the probe means
/// the vault is locked and the interactive unlock must run.
pub fn needs_unlock(code: Option<i32>) -> (r: bool)
    ensures
        r == (code != Some(0i32)),
{
    !exit_ok(code)
}

/// The unlock guard's second decision: a failed interactive unlock is
/// fatal, with no fallback.
pub fn unlock_outcome(code: Option<i32>) -> (r: Result<(), VaultError>)
    ensures
        code == Some(0i32) ==> r is Ok,
        code != Some(0i32) ==> (r matches Err(VaultError::UnlockFailed { code: k }) && k
            == code),
{
    if exit_ok(code) {
        Ok(())
    } else {
        Err(VaultError::UnlockFailed { code })
    }
}

/// The piped-write modes' exit handling: any non-zero exit is fatal.
pub fn write_outcome(code: Option<i32>) -> (r: Result<(), VaultError>)
    ensures
        code == Some(0i32) ==> r is Ok,
        code != Some(0i32) ==> (r matches Err(VaultError::WriteFailed { code: k }) && k
            == code),
{
    if exit_ok(code) {
        Ok(())
    } else {
        Err(VaultError::WriteFailed { code })
    }
}

/// Stages the creation of a new entry: the creation subcommand scoped to
/// the folder, and a login-type payload whose first line (the password
/// field) is empty, since the tool's creation command always produces a
/// login-type entry.
pub fn create_item(name: &str, folder: &str, notes_content: &str) -> (c: PipedCmd)
    ensures
        c.args@.len() == 4,
        c.args@[0]@ == "add"@,
        c.args@[1]@ == "--folder"@,
        c.args@[2]@ == folder@,
        c.args@[3]@ == name@,
        c.stdin@ == login_payload(notes_content@),
{
    let mut args: Vec<String> = Vec::new();
    args.push("add".to_owned());
    args.push("--folder".to_owned());
    args.push(folder.to_owned());
    args.push(name.to_owned());
    PipedCmd { args, stdin: build_payload(notes_content, false) }
}

/// Stages the edit of an existing entry, replacing its notes wholesale:
/// the edit subcommand scoped to the folder, and a payload formatted for
/// the declared entry type.  The caller must supply the right
/// `is_secure_note` flag; the adapter does not inspect the stored type.
pub fn edit_item(name: &str, folder: &str, notes_content: &str, is_secure_note: bool) -> (c:
    PipedCmd)
    ensures
        c.args@.len() == 4,
        c.args@[0]@ == "edit"@,
        c.args@[1]@ == "--folder"@,
        c.args@[2]@ == folder@,
        c.args@[3]@ == name@,
        is_secure_note ==> c.stdin@ == note_payload(notes_content@),
        !is_secure_note ==> c.stdin@ == login_payload(notes_content@),
{
    let mut args: Vec<String> = Vec::new();
    args.push("edit".to_owned());
    args.push("--folder".to_owned());
    args.push(folder.to_owned());
    args.push(name.to_owned());
    PipedCmd { args, stdin: build_payload(notes_content, is_secure_note) }
}

/// Does a catalog entry lie in the requested folder?  An absent folder
/// matches only the empty folder name.
pub open spec fn folder_matches(entry_folder: Option<Seq<char>>, folder: Seq<char>) -> bool {
    match entry_folder {
        Some(g) => g == folder,
        None => folder.len() == 0,
    }
}

/// The names of the entries lying in `folder`, in catalog order.
pub open spec fn names_in(es: Seq<EntryView>, folder: Seq<char>) -> Seq<Seq<char>>
    decreases es.len(),
{
    if es.len() == 0 {
        Seq::empty()
    } else {
        let rest = names_in(es.drop_last(), folder);
        if folder_matches(es.last().folder, folder) {
            rest.push(es.last().name)
        } else {
            rest
        }
    }
}

/// Membership in the requested folder, as a predicate on catalog entries.
pub open spec fn in_folder(folder: Seq<char>) -> spec_fn(EntryView) -> bool {
    |e: EntryView| folder_matches(e.folder, folder)
}

/// The filter-and-map reading of a listing's names.
pub open spec fn listed_names(es: Seq<EntryView>, folder: Seq<char>) -> Seq<Seq<char>> {
    es.filter(in_folder(folder)).map_values(|e: EntryView| e.name)
}

/// Law: a listing's names are exactly the names of the entries whose folder
/// equals the requested one, excluding entries in other folders, in catalog
/// order and whatever the entries' types.
pub proof fn lemma_names_in_is_filter(es: Seq<EntryView>, folder: Seq<char>)
    ensures
        names_in(es, folder) == listed_names(es, folder),
    decreases es.len(),
{
    reveal(Seq::filter);
    if es.len() == 0 {
        assert(listed_names(es, folder) =~= names_in(es, folder));
    } else {
        lemma_names_in_is_filter(es.drop_last(), folder);
        let rest = es.drop_last().filter(in_folder(folder));
        if in_folder(folder)(es.last()) {
            assert(es.filter(in_folder(folder)) == rest.push(es.last()));
            assert(rest.push(es.last()).map_values(|e: EntryView| e.name) =~= rest.map_values(
                |e: EntryView| e.name,
            ).push(es.last().name));
        } else {
            assert(es.filter(in_folder(folder)) == rest);
        }
    }
}

/// What the listing's output bytes decode to: a JSON array of catalog
/// entries, or nothing when the bytes are not of that shape.
pub open spec fn list_decode(bytes: Seq<u8>) -> Option<Seq<EntryView>> {
    match json_of(bytes) {
        Some(j) => entries_of(j),
        None => None,
    }
}

/// What a fetch's output bytes decode to: a JSON object holding the item's
/// type and notes, or nothing when the bytes are not of that shape.
pub open spec fn item_decode(bytes: Seq<u8>) -> Option<ItemView> {
    match json_of(bytes) {
        Some(j) => item_of(j),
        None => None,
    }
}

/// Interprets a finished listing run: on success, the names of the catalog
/// entries whose folder equals the requested one, in the tool's order;
/// entries in other folders are excluded whatever their type.  A non-zero
/// exit or malformed output is fatal.
pub fn list_namespaces(folder: &str, output: &CmdOutput) -> (r: Result<Vec<String>, VaultError>)
    ensures
        output.succeeded() ==> match list_decode(output.stdout@) {
            Some(es) => r matches Ok(names) && names.deep_view() == names_in(es, folder@),
            None => r matches Err(VaultError::ParseFailed { command: c }) && c@ == "rbw list"@,
        },
        !output.succeeded() ==> (r matches Err(VaultError::CommandFailed {
            command: c,
            code: k,
            stderr: e,
        }) && c@ == "rbw list"@ && k == output.code && e@ == trimmed(output.stderr@)),
{
    match check_status("rbw list", output.code, output.stderr.as_str()) {
        Err(e) => {
            return Err(e);
        },
        Ok(_) => {},
    }
    let j = match crate::json::parse_json(output.stdout.as_slice()) {
        Some(j) => j,
        None => {
            return Err(VaultError::ParseFailed { command: "rbw list".to_owned() });
        },
    };
    let entries = match parse_entries(&j) {
        Some(v) => v,
        None => {
            return Err(VaultError::ParseFailed { command: "rbw list".to_owned() });
        },
    };
    let ghost es = entry_views(entries@);
    let fstr: String = folder.to_owned();
    let len = entries.len();
    let mut names: Vec<String> = Vec::new();
    let mut i: usize = 0;
    proof {
        assert(es.take(0) =~= Seq::<EntryView>::empty());
        assert(names.deep_view() =~= Seq::<Seq<char>>::empty());
    }
    while i < len
        invariant
            len == entries@.len(),
            i <= len,
            es == entry_views(entries@),
            fstr@ == folder@,
            names.deep_view() == names_in(es.take(i as int), folder@),
        decreases len - i,
    {
        proof {
            let t = es.take(i + 1);
            assert(t.drop_last() =~= es.take(i as int));
            assert(t.last() == es[i as int]);
            assert(es[i as int] == entries@[i as int]@);
        }
        let matched = match &entries[i].folder {
            Some(g) => *g == fstr,
            None => fstr.as_str().is_empty(),
        };
        if matched {
            let picked = entries[i].name.clone();
            names.push(picked);
            proof {
                assert(names.deep_view() =~= names.deep_view().drop_last().push(
                    names@.last().deep_view(),
                ));
            }
        }
        i += 1;
    }
    proof {
        assert(es.take(len as int) =~= es);
    }
    Ok(names)
}

/// Interprets a finished single-item fetch.  On success the output decodes
/// to the item (malformed output is fatal); on failure the diagnostic text
/// decides: a known "not found" phrasing makes the item absent, a normal
/// outcome, while any other failure is fatal.
pub fn get_item(output: &CmdOutput) -> (r: Result<Option<RbwItem>, VaultError>)
    ensures
        output.succeeded() ==> match item_decode(output.stdout@) {
            Some(iv) => r matches Ok(Some(item)) && item@ == iv,
            None => r matches Err(VaultError::ParseFailed { command: c }) && c@ == "rbw get"@,
        },
        !output.succeeded() && says_not_found(output.stderr@) ==> r matches Ok(None),
        !output.succeeded() && !says_not_found(output.stderr@) ==> (r matches Err(
            VaultError::CommandFailed { command: c, code: k, stderr: e },
        ) && c@ == "rbw get"@ && k == output.code && e@ == trimmed(output.stderr@)),
{
    if !exit_ok(output.code) {
        if stderr_says_not_found(output.stderr.as_str()) {
            return Ok(None);
        }
        return Err(
            crate::classify::command_failure("rbw get", output.code, output.stderr.as_str()),
        );
    }
    let j = match crate::json::parse_json(output.stdout.as_slice()) {
        Some(j) => j,
        None => {
            return Err(VaultError::ParseFailed { command: "rbw get".to_owned() });
        },
    };
    match parse_item(&j) {
        Some(item) => Ok(Some(item)),
        None => Err(VaultError::ParseFailed { command: "rbw get".to_owned() }),
    }
}

/// Interprets a finished removal run: any non-zero exit is fatal, with no
/// "not found" special case.
pub fn delete_item(output: &CmdOutput) -> (r: Result<(), VaultError>)
    ensures
        output.succeeded() ==> r is Ok,
        !output.succeeded() ==> (r matches Err(VaultError::CommandFailed {
            command: c,
            code: k,
            stderr: e,
        }) && c@ == "rbw remove"@ && k == output.code && e@ == trimmed(output.stderr@)),
{
    check_status("rbw remove", output.code, output.stderr.as_str())
}

} // verus!
