//! Layout of the bot's file store: one directory per node under `<exe dir>/db`,
//! one file per key, and the rule by which user information accumulates.
use vstd::prelude::*;
use crate::decimal::{decimal, push_decimal, lemma_decimal_injective};
use crate::text::{has_infix, has_prefix, occurs_at, contains_str, push_char, push_str};

verus! {

/// A node of the file store: a directory that holds one file per key.
pub struct Database {
    node_name: String,
}

impl View for Database {
    type V = Seq<char>;

    /// The directory path of the node.
    closed spec fn view(&self) -> Seq<char> {
        self.node_name@
    }
}

/// The path of the file that holds `key` in the node at `node`.
pub open spec fn key_path_spec(node: Seq<char>, key: Seq<char>) -> Seq<char> {
    node + seq!['/'] + key
}

/// What the user-information file holds after saving `contents` over what it
/// held before (`None` when there was no file): the new contents are added on
/// a line of their own unless they already occur in it.
pub open spec fn merged_info(held: Option<Seq<char>>, contents: Seq<char>) -> Seq<char> {
    match held {
        None => contents,
        Some(o) => if has_infix(o, contents) {
            o
        } else {
            o + seq!['\n'] + contents
        },
    }
}

impl Database {
    /// The node `node_name` under the store root `<exe_dir>/db`.
    pub fn from(exe_dir: &str, node_name: &str) -> (db: Database)
        ensures
            db@ == exe_dir@ + seq!['/', 'd', 'b', '/'] + node_name@,
    {
        let mut p = String::new();
        push_str(&mut p, exe_dir);
        push_char(&mut p, '/');
        push_char(&mut p, 'd');
        push_char(&mut p, 'b');
        push_char(&mut p, '/');
        push_str(&mut p, node_name);
        let db = Database { node_name: p };
        assert(db@ =~= exe_dir@ + seq!['/', 'd', 'b', '/'] + node_name@);
        db
    }

    /// The directory path of the node (what displaying the node shows).
    pub fn node_path(&self) -> (r: &str)
        ensures
            r@ == self@,
    {
        self.node_name.as_str()
    }

    /// The path of the file that holds `key` (a note name or a user id).
    pub fn key_path(&self, key: &str) -> (r: String)
        ensures
            r@ == key_path_spec(self@, key@),
    {
        let mut p = self.node_name.clone();
        push_char(&mut p, '/');
        push_str(&mut p, key);
        assert(p@ =~= key_path_spec(self@, key@));
        p
    }

    /// The path of the file that holds message or user `id`.
    pub fn msg_path(&self, id: u64) -> (r: String)
        ensures
            r@ == key_path_spec(self@, decimal(id as nat)),
    {
        let mut p = self.node_name.clone();
        push_char(&mut p, '/');
        push_decimal(&mut p, id);
        assert(p@ =~= key_path_spec(self@, decimal(id as nat)));
        p
    }
}

/// The new contents of the user-information file after saving `contents`,
/// given what it held (`None` when the file did not exist).
pub fn merge_user_info(held: Option<&str>, contents: &str) -> (r: String)
    ensures
        r@ == merged_info(
            match held {
                Some(o) => Some(o@),
                None => None,
            },
            contents@,
        ),
{
    match held {
        None => {
            let mut r = String::new();
            push_str(&mut r, contents);
            assert(r@ =~= contents@);
            r
        },
        Some(o) => {
            let mut r = String::new();
            push_str(&mut r, o);
            if !contains_str(o, contents) {
                push_char(&mut r, '\n');
                push_str(&mut r, contents);
            }
            assert(r@ =~= merged_info(Some(o@), contents@));
            r
        },
    }
}

/// Reading back after saving user information finds what was saved.
pub proof fn lemma_saved_info_found(held: Option<Seq<char>>, contents: Seq<char>)
    ensures
        has_infix(merged_info(held, contents), contents),
{
    let m = merged_info(held, contents);
    match held {
        None => {
            assert(occurs_at(m, contents, 0)) by {
                assert(m.subrange(0, contents.len() as int) =~= contents);
            }
        },
        Some(o) => {
            if !has_infix(o, contents) {
                let i: int = o.len() + 1int;
                assert(occurs_at(m, contents, i)) by {
                    assert(m.subrange(i, i + contents.len()) =~= contents);
                }
            }
        },
    }
}

/// Saving user information keeps everything the file held before, at its start.
pub proof fn lemma_saved_info_keeps_old(held: Seq<char>, contents: Seq<char>)
    ensures
        has_prefix(merged_info(Some(held), contents), held),
{
    let m = merged_info(Some(held), contents);
    assert(m.subrange(0, held.len() as int) =~= held);
}

/// Saving the same user information twice gives what saving it once gave.
pub proof fn lemma_saved_info_idempotent(held: Option<Seq<char>>, contents: Seq<char>)
    ensures
        merged_info(Some(merged_info(held, contents)), contents) == merged_info(held, contents),
{
    lemma_saved_info_found(held, contents);
}

/// Distinct message ids are kept in distinct files of a node.
pub proof fn lemma_msg_paths_distinct(node: Seq<char>, a: u64, b: u64)
    requires
        a != b,
    ensures
        key_path_spec(node, decimal(a as nat)) != key_path_spec(node, decimal(b as nat)),
{
    if key_path_spec(node, decimal(a as nat)) == key_path_spec(node, decimal(b as nat)) {
        let pa = key_path_spec(node, decimal(a as nat));
        let pb = key_path_spec(node, decimal(b as nat));
        assert(pa.subrange(node.len() + 1int, pa.len() as int) =~= decimal(a as nat));
        assert(pb.subrange(node.len() + 1int, pb.len() as int) =~= decimal(b as nat));
        lemma_decimal_injective(a as nat, b as nat);
    }
}

} // verus!
