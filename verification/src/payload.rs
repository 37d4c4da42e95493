use vstd::prelude::*;

verus! {

/// The payload streamed to the vault tool's editor channel when writing a
/// login-type entry: an empty first line (the password field), the notes,
/// and a final newline.
pub open spec fn login_payload(notes: Seq<char>) -> Seq<char> {
    seq!['\n'] + notes + seq!['\n']
}

/// The payload for a secure-note entry: the tool prepends the empty
/// password line itself before parsing, so only the notes and a final
/// newline are sent.
pub open spec fn note_payload(notes: Seq<char>) -> Seq<char> {
    notes + seq!['\n']
}

/// Builds the editor payload for an entry of the given type.
pub fn build_payload(notes: &str, is_secure_note: bool) -> (r: String)
    ensures
        is_secure_note ==> r@ == note_payload(notes@),
        !is_secure_note ==> r@ == login_payload(notes@),
{
    proof {
        reveal_strlit("\n");
    }
    if is_secure_note {
        let mut s = notes.to_owned();
        s.append("\n");
        proof {
            assert(s@ =~= note_payload(notes@));
        }
        s
    } else {
        let mut s = "\n".to_owned();
        s.append(notes);
        s.append("\n");
        proof {
            assert(s@ =~= login_payload(notes@));
        }
        s
    }
}

/// Everything after the first line of an editor payload.  The vault tool
/// reads the first line as the password field.
pub open spec fn after_first_line(s: Seq<char>) -> Seq<char>
    decreases s.len(),
{
    if s.len() == 0 {
        s
    } else if s[0] == '\n' {
        s.subrange(1, s.len() as int)
    } else {
        after_first_line(s.subrange(1, s.len() as int))
    }
}

/// A payload without its final newline, when it has one.
pub open spec fn drop_trailing_newline(s: Seq<char>) -> Seq<char> {
    if s.len() > 0 && s.last() == '\n' {
        s.drop_last()
    } else {
        s
    }
}

/// The notes the vault tool reads out of an editor payload: everything
/// after the password line, less the final newline.
pub open spec fn editor_notes(payload: Seq<char>) -> Seq<char> {
    drop_trailing_newline(after_first_line(payload))
}

/// Law: the payload written for a login-type entry reads back as exactly
/// the notes it was built from, for every notes text.
pub proof fn lemma_login_payload_notes(notes: Seq<char>)
    ensures
        editor_notes(login_payload(notes)) == notes,
{
    let p = login_payload(notes);
    assert(p[0] == '\n');
    assert(p.subrange(1, p.len() as int) =~= notes + seq!['\n']);
    let t = notes + seq!['\n'];
    assert(t.last() == '\n');
    assert(t.drop_last() =~= notes);
}

/// Law: a secure-note payload, once the tool has prepended the empty
/// password line it adds itself, reads back as exactly the notes.
pub proof fn lemma_note_payload_notes(notes: Seq<char>)
    ensures
        editor_notes(seq!['\n'] + note_payload(notes)) == notes,
{
    assert(seq!['\n'] + note_payload(notes) =~= login_payload(notes));
    lemma_login_payload_notes(notes);
}

} // verus!
