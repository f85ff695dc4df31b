//! Socket naming for editor instances.
//!
//! Every instance listens on a Unix socket whose path is derived from the
//! working directory it was started in, the kind of editor and its process
//! id:
//!
//! ```text
//! /tmp/<hex digest of the directory>-<kind tag><pid>.sock
//! ```
//!
//! The kind tag is empty for Neovim and `vscode-` for VSCode, so one glob
//! pattern per kind finds the candidates and the tag tells the kinds apart.
//! The directory is expected in canonical form; resolving it, and listing
//! what exists under `/tmp`, is the caller's part.

use crate::text::{
    decimal, ends_with, lemma_decimal_digits, lemma_decimal_injective, push_decimal, starts_with,
};
use vstd::prelude::*;
use vstd::string::*;
use vstd::utf8::encode_utf8;

verus! {

/// The editors that can be reached.
#[derive(Clone, Copy, Debug, PartialEq, Eq, Structural)]
pub enum EditorKind {
    Neovim,
    VSCode,
}

/// The BLAKE3 digest of a byte string, as the `blake3` crate computes it.
pub uninterp spec fn blake3_digest(input: Seq<u8>) -> Seq<u8>;

/// The lowercase hexadecimal digit of a value below 16.
pub open spec fn hex_digit(v: nat) -> char
    recommends
        v < 16,
{
    if v < 10 {
        (48 + v) as char
    } else {
        (87 + v) as char
    }
}

/// Two lowercase hexadecimal digits per byte, the high half first.
pub open spec fn lower_hex(bytes: Seq<u8>) -> Seq<char>
    decreases bytes.len(),
{
    if bytes.len() == 0 {
        Seq::empty()
    } else {
        lower_hex(bytes.drop_last()).push(hex_digit(bytes.last() as nat / 16)).push(
            hex_digit(bytes.last() as nat % 16),
        )
    }
}

/// The name under which a directory's sockets are filed: the hexadecimal
/// BLAKE3 digest of the directory's UTF-8 bytes.
pub open spec fn directory_hash(cwd: Seq<char>) -> Seq<char> {
    lower_hex(blake3_digest(encode_utf8(cwd)))
}

/// The literal that marks the sockets of a kind.
pub open spec fn kind_tag(kind: EditorKind) -> Seq<char> {
    match kind {
        EditorKind::Neovim => Seq::empty(),
        EditorKind::VSCode => "vscode-"@,
    }
}

/// What the paths of all sockets of one directory and kind begin with.
pub open spec fn socket_stem(hash: Seq<char>, kind: EditorKind) -> Seq<char> {
    "/tmp/"@ + hash + "-"@ + kind_tag(kind)
}

/// The socket path of instance `id`.
pub open spec fn socket_path(hash: Seq<char>, kind: EditorKind, id: nat) -> Seq<char> {
    socket_stem(hash, kind) + decimal(id) + ".sock"@
}

/// The glob pattern that the sockets of one directory and kind match.
pub open spec fn socket_pattern(hash: Seq<char>, kind: EditorKind) -> Seq<char> {
    socket_stem(hash, kind) + "*.sock"@
}

/// Whether `path` names a socket of the given directory and kind: it begins
/// with the stem of that kind, ends in `.sock`, and does not carry the tag
/// of the other kind.
pub open spec fn is_socket_of(path: Seq<char>, hash: Seq<char>, kind: EditorKind) -> bool {
    &&& socket_stem(hash, kind).is_prefix_of(path)
    &&& ".sock"@.is_suffix_of(path)
    &&& path.len() >= socket_stem(hash, kind).len() + ".sock"@.len()
    &&& kind == EditorKind::Neovim ==> !socket_stem(hash, EditorKind::VSCode).is_prefix_of(path)
}

/// The paths of `candidates` that are sockets of the directory and kind, in
/// the order in which they were given.
pub open spec fn matching_sockets(
    candidates: Seq<String>,
    hash: Seq<char>,
    kind: EditorKind,
) -> Seq<String> {
    candidates.filter(|p: String| is_socket_of(p@, hash, kind))
}

/// `blake3::hash`: the 32 bytes of the digest of `input`.
#[verifier::external_body]
fn digest(input: &[u8]) -> (out: [u8; 32])
    ensures
        out@ == blake3_digest(input@),
{
    blake3::hash(input).into()
}

/// `blake3::Hash::to_hex`: each byte of the digest as two lowercase
/// hexadecimal digits, the high half first.
#[verifier::external_body]
fn digest_hex(bytes: [u8; 32]) -> (out: String)
    ensures
        out@ == lower_hex(bytes@),
{
    blake3::Hash::from_bytes(bytes).to_hex().to_string()
}

/// The hash under which the sockets of `cwd` are filed: 64 hexadecimal
/// characters.
pub fn hash_directory(cwd: &str) -> (hash: String)
    ensures
        hash@ == directory_hash(cwd@),
        hash@.len() == 64,
        forall|i: int|
            0 <= i < hash@.len() ==> ('0' <= #[trigger] hash@[i] <= '9') || ('a' <= hash@[i]
                <= 'f'),
{
    let bytes = digest(cwd.as_bytes());
    proof {
        lemma_lower_hex(bytes@);
    }
    digest_hex(bytes)
}

fn stem_of(hash: &str, kind: EditorKind) -> (stem: String)
    ensures
        stem@ == socket_stem(hash@, kind),
{
    let mut stem = String::from_str("/tmp/");
    stem.append(hash);
    stem.append("-");
    match kind {
        EditorKind::Neovim => {
            assert(stem@ =~= socket_stem(hash@, kind));
        },
        EditorKind::VSCode => {
            stem.append("vscode-");
        },
    }
    stem
}

/// The socket path of instance `pid` under an already computed directory
/// hash.
pub fn socket_path_for_hash(hash: &str, kind: EditorKind, pid: u32) -> (path: String)
    ensures
        path@ == socket_path(hash@, kind, pid as nat),
{
    let mut path = stem_of(hash, kind);
    push_decimal(&mut path, pid as u64);
    path.append(".sock");
    path
}

/// The socket path of instance `pid` of `kind` in the canonical directory
/// `cwd`.
pub fn compute_socket_path(cwd: &str, kind: EditorKind, pid: u32) -> (path: String)
    ensures
        path@ == socket_path(directory_hash(cwd@), kind, pid as nat),
{
    let hash = hash_directory(cwd);
    socket_path_for_hash(hash.as_str(), kind, pid)
}

/// The socket path of the Neovim instance `pid` in the canonical directory
/// `cwd`.
pub fn compute_socket_path_with_pid(cwd: &str, pid: u32) -> (path: String)
    ensures
        path@ == socket_path(directory_hash(cwd@), EditorKind::Neovim, pid as nat),
{
    compute_socket_path(cwd, EditorKind::Neovim, pid)
}

/// The glob pattern under which the sockets of `kind` in the canonical
/// directory `cwd` are looked up.
pub fn socket_glob(cwd: &str, kind: EditorKind) -> (pattern: String)
    ensures
        pattern@ == socket_pattern(directory_hash(cwd@), kind),
{
    let hash = hash_directory(cwd);
    let mut pattern = stem_of(hash.as_str(), kind);
    pattern.append("*.sock");
    pattern
}

/// Decides whether `path` names a socket of the directory hash and kind.
pub fn names_socket_of(path: &str, hash: &str, kind: EditorKind) -> (b: bool)
    ensures
        b == is_socket_of(path@, hash@, kind),
{
    let stem = stem_of(hash, kind);
    if !starts_with(path, stem.as_str()) || !ends_with(path, ".sock") {
        return false;
    }
    let long_enough = path.unicode_len() - stem.as_str().unicode_len() >= ".sock".unicode_len();
    match kind {
        EditorKind::Neovim => {
            let other = stem_of(hash, EditorKind::VSCode);
            long_enough && !starts_with(path, other.as_str())
        },
        EditorKind::VSCode => long_enough,
    }
}

/// Keeps, of the paths that a lookup under `socket_glob(cwd, kind)` gave,
/// those that name a socket of that directory and kind.
pub fn find_matching_sockets(cwd: &str, kind: EditorKind, candidates: Vec<String>) -> (sockets:
    Vec<String>)
    ensures
        sockets@ == matching_sockets(candidates@, directory_hash(cwd@), kind),
{
    let hash = hash_directory(cwd);
    let mut sockets: Vec<String> = Vec::new();
    let ghost keep = |p: String| is_socket_of(p@, hash@, kind);
    let mut i: usize = 0;
    while i < candidates.len()
        invariant
            i <= candidates.len(),
            hash@ == directory_hash(cwd@),
            keep == |p: String| is_socket_of(p@, hash@, kind),
            sockets@ == candidates@.take(i as int).filter(keep),
        decreases candidates.len() - i,
    {
        proof {
            assert(candidates@.take(i + 1).drop_last() =~= candidates@.take(i as int));
            reveal(Seq::filter);
        }
        if names_socket_of(candidates[i].as_str(), hash.as_str(), kind) {
            sockets.push(candidates[i].clone());
        }
        i += 1;
    }
    proof {
        assert(candidates@.take(candidates@.len() as int) =~= candidates@);
    }
    sockets
}

/// Within one directory, two socket paths are equal only if they are of the
/// same kind and of the same instance: distinct ids of one kind, and
/// distinct kinds with one id, never share a path.
pub proof fn law_socket_path_identifies_instance(
    hash: Seq<char>,
    kind_a: EditorKind,
    id_a: nat,
    kind_b: EditorKind,
    id_b: nat,
)
    ensures
        socket_path(hash, kind_a, id_a) == socket_path(hash, kind_b, id_b) <==> (kind_a == kind_b
            && id_a == id_b),
{
    let base = "/tmp/"@ + hash + "-"@;
    let a = socket_path(hash, kind_a, id_a);
    let b = socket_path(hash, kind_b, id_b);
    reveal_strlit("vscode-");
    lemma_decimal_digits(id_a);
    lemma_decimal_digits(id_b);
    if a == b {
        if kind_a == kind_b {
            let stem = socket_stem(hash, kind_a);
            assert(a.len() == stem.len() + decimal(id_a).len() + ".sock"@.len());
            assert(b.len() == stem.len() + decimal(id_b).len() + ".sock"@.len());
            assert forall|i: int| 0 <= i < decimal(id_a).len() implies decimal(id_a)[i] == decimal(
                id_b,
            )[i] by {
                assert(a[stem.len() + i] == decimal(id_a)[i]);
                assert(b[stem.len() + i] == decimal(id_b)[i]);
            }
            assert(decimal(id_a) =~= decimal(id_b));
            lemma_decimal_injective(id_a, id_b);
        } else {
            let plain = if kind_a == EditorKind::Neovim { id_a } else { id_b };
            let at = base.len() as int;
            assert(socket_path(hash, EditorKind::Neovim, plain)[at] == decimal(plain)[0]);
            assert(socket_path(hash, EditorKind::VSCode, id_a)[at] == 'v');
            assert(socket_path(hash, EditorKind::VSCode, id_b)[at] == 'v');
            assert(false);
        }
    }
}

/// Two directories whose hashes differ never share a socket path.
pub proof fn law_socket_path_identifies_directory(
    hash_a: Seq<char>,
    kind_a: EditorKind,
    id_a: nat,
    hash_b: Seq<char>,
    kind_b: EditorKind,
    id_b: nat,
)
    requires
        hash_a.len() == hash_b.len(),
        socket_path(hash_a, kind_a, id_a) == socket_path(hash_b, kind_b, id_b),
    ensures
        hash_a == hash_b,
{
    let a = socket_path(hash_a, kind_a, id_a);
    let b = socket_path(hash_b, kind_b, id_b);
    let lead = "/tmp/"@.len() as int;
    assert forall|i: int| 0 <= i < hash_a.len() implies hash_a[i] == hash_b[i] by {
        assert(a[lead + i] == hash_a[i]);
        assert(b[lead + i] == hash_b[i]);
    }
    assert(hash_a =~= hash_b);
}

/// A computed socket path is recognised as a socket of its own kind, and
/// is not taken for one of the other kind.
pub proof fn law_socket_path_is_recognised(
    hash: Seq<char>,
    kind: EditorKind,
    id: nat,
    asked: EditorKind,
)
    ensures
        is_socket_of(socket_path(hash, kind, id), hash, asked) <==> kind == asked,
{
    let base = "/tmp/"@ + hash + "-"@;
    let path = socket_path(hash, kind, id);
    let stem = socket_stem(hash, kind);
    let at = base.len() as int;
    reveal_strlit("vscode-");
    lemma_decimal_digits(id);
    assert(stem =~= path.subrange(0, stem.len() as int));
    assert(".sock"@ =~= path.subrange(path.len() - ".sock"@.len(), path.len() as int));
    match kind {
        EditorKind::Neovim => {
            assert(path[at] == decimal(id)[0]);
            let other = socket_stem(hash, EditorKind::VSCode);
            if other.is_prefix_of(path) {
                assert(path.subrange(0, other.len() as int)[at] == other[at]);
                assert(other[at] == 'v');
            }
        },
        EditorKind::VSCode => {
            assert(base =~= path.subrange(0, at));
        },
    }
}

/// A path is a socket of at most one kind.
pub proof fn law_socket_is_of_one_kind(path: Seq<char>, hash: Seq<char>)
    ensures
        !(is_socket_of(path, hash, EditorKind::Neovim) && is_socket_of(
            path,
            hash,
            EditorKind::VSCode,
        )),
{
}

/// A path is a socket of at most one directory: two hashes of the same
/// length under which it is recognised are the same hash.
pub proof fn law_socket_is_of_one_directory(
    path: Seq<char>,
    hash_a: Seq<char>,
    kind_a: EditorKind,
    hash_b: Seq<char>,
    kind_b: EditorKind,
)
    requires
        hash_a.len() == hash_b.len(),
        is_socket_of(path, hash_a, kind_a),
        is_socket_of(path, hash_b, kind_b),
    ensures
        hash_a == hash_b,
{
    let lead = "/tmp/"@.len() as int;
    let stem_a = socket_stem(hash_a, kind_a);
    let stem_b = socket_stem(hash_b, kind_b);
    assert forall|i: int| 0 <= i < hash_a.len() implies hash_a[i] == hash_b[i] by {
        assert(path.subrange(0, stem_a.len() as int)[lead + i] == stem_a[lead + i]);
        assert(path.subrange(0, stem_b.len() as int)[lead + i] == stem_b[lead + i]);
        assert(stem_a[lead + i] == hash_a[i]);
        assert(stem_b[lead + i] == hash_b[i]);
    }
    assert(hash_a =~= hash_b);
}

/// The hexadecimal form of a byte string has two characters per byte,
/// each a digit or a letter from `a` to `f`.
pub proof fn lemma_lower_hex(bytes: Seq<u8>)
    ensures
        lower_hex(bytes).len() == 2 * bytes.len(),
        forall|i: int|
            0 <= i < lower_hex(bytes).len() ==> ('0' <= #[trigger] lower_hex(bytes)[i] <= '9')
                || ('a' <= lower_hex(bytes)[i] <= 'f'),
    decreases bytes.len(),
{
    if bytes.len() > 0 {
        lemma_lower_hex(bytes.drop_last());
    }
}

} // verus!
