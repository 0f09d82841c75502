//! Identifying the connected editor from the client information it
//! announced at initialization.

use vstd::prelude::*;
use vstd::string::StringSliceAdditionalSpecFns;

verus! {

/// The editor family on the other end of the connection.
#[derive(Debug, Clone, Copy, PartialEq, Eq, PartialOrd, Ord, Structural)]
pub enum ClientId {
    VSCode,
    Intellij,
    Neovim,
    Other,
}

impl ClientId {
    pub fn is_vscode(&self) -> (r: bool)
        ensures
            r == (*self is VSCode),
    {
        match self {
            ClientId::VSCode => true,
            _ => false,
        }
    }

    pub fn is_intellij(&self) -> (r: bool)
        ensures
            r == (*self is Intellij),
    {
        match self {
            ClientId::Intellij => true,
            _ => false,
        }
    }

    pub fn is_neovim(&self) -> (r: bool)
        ensures
            r == (*self is Neovim),
    {
        match self {
            ClientId::Neovim => true,
            _ => false,
        }
    }

    pub fn is_other(&self) -> (r: bool)
        ensures
            r == (*self is Other),
    {
        match self {
            ClientId::Other => true,
            _ => false,
        }
    }
}

impl Default for ClientId {
    fn default() -> (r: Self)
        ensures
            r is Other,
    {
        ClientId::Other
    }
}

/// What a client announces about itself: its name and, optionally,
/// its version.
pub struct ClientInfo {
    pub name: String,
    pub version: Option<String>,
}

/// The byte encoding of a string's characters.
pub open spec fn spec_str_bytes(s: String) -> Seq<u8> {
    vstd::utf8::encode_utf8(s@)
}

/// Whether `needle` occurs contiguously inside `hay`.
pub open spec fn spec_contains_sub(hay: Seq<u8>, needle: Seq<u8>) -> bool {
    exists|i: int|
        0 <= i <= hay.len() - needle.len() && #[trigger] hay.subrange(i, i + needle.len())
            == needle
}

/// Byte equality of two strings.
fn str_eq_bytes(a: &str, b: &str) -> (r: bool)
    ensures
        r == (a.spec_bytes() == b.spec_bytes()),
{
    let ab = a.as_bytes();
    let bb = b.as_bytes();
    if ab.len() != bb.len() {
        proof {
            assert(a.spec_bytes() != b.spec_bytes());
        }
        return false;
    }
    let n = ab.len();
    let mut i: usize = 0;
    while i < n
        invariant
            n == ab@.len(),
            n == bb@.len(),
            ab@ == a.spec_bytes(),
            bb@ == b.spec_bytes(),
            0 <= i <= n,
            forall|j: int| 0 <= j < i ==> ab@[j] == bb@[j],
        decreases n - i,
    {
        if ab[i] != bb[i] {
            proof {
                assert(a.spec_bytes()[i as int] != b.spec_bytes()[i as int]);
            }
            return false;
        }
        i = i + 1;
    }
    proof {
        assert(a.spec_bytes() =~= b.spec_bytes());
    }
    true
}

/// Substring search, as `spec_contains_sub` states.
fn str_contains(hay: &str, needle: &str) -> (r: bool)
    ensures
        r == spec_contains_sub(hay.spec_bytes(), needle.spec_bytes()),
{
    let h = hay.as_bytes();
    let m = needle.as_bytes();
    let hn = h.len();
    let mn = m.len();
    if mn > hn {
        proof {
            assert(!spec_contains_sub(hay.spec_bytes(), needle.spec_bytes()));
        }
        return false;
    }
    let mut i: usize = 0;
    while i <= hn - mn
        invariant
            hn == h@.len(),
            mn == m@.len(),
            mn <= hn,
            h@ == hay.spec_bytes(),
            m@ == needle.spec_bytes(),
            0 <= i <= hn - mn + 1,
            forall|q: int| 0 <= q < i ==> #[trigger] h@.subrange(q, q + mn as int) != m@,
        decreases hn - mn - i + 1,
    {
        let mut j: usize = 0;
        let mut hit = true;
        while j < mn
            invariant
                hn == h@.len(),
                mn == m@.len(),
                0 <= i <= hn - mn,
                0 <= j <= mn,
                hit == (forall|q: int| 0 <= q < j ==> h@[i + q] == m@[q]),
                !hit ==> j == mn,
            decreases mn - j,
        {
            if h[i + j] != m[j] {
                hit = false;
                j = mn;
            } else {
                proof {
                    assert(forall|q: int| 0 <= q < j ==> h@[i + q] == m@[q]);
                    assert(h@[i + j] == m@[j as int]);
                }
                j = j + 1;
            }
        }
        if hit {
            proof {
                assert(h@.subrange(i as int, i + mn as int) =~= m@);
            }
            return true;
        }
        proof {
            if h@.subrange(i as int, i + mn as int) == m@ {
                let q = choose|q: int| 0 <= q < mn && h@[i + q] != m@[q];
                assert(h@.subrange(i as int, i + mn as int)[q] == h@[i + q]);
            }
        }
        i = i + 1;
    }
    proof {
        assert forall|q: int|
            0 <= q <= h@.len() - m@.len() implies #[trigger] h@.subrange(q, q + mn as int)
            != m@ by {}
    }
    false
}

/// The names that identify a VS-Code-family client: the product
/// names themselves, or one of the downstream editors built on it.
pub open spec fn spec_is_vscode_name(n: Seq<u8>) -> bool {
    ||| spec_contains_sub(n, "Visual Studio Code".spec_bytes())
    ||| spec_contains_sub(n, "Code - OSS".spec_bytes())
    ||| spec_contains_sub(n, "VSCodium".spec_bytes())
    ||| n == "Cursor".spec_bytes()
    ||| n == "Windsurf".spec_bytes()
    ||| n == "Trae".spec_bytes()
    ||| n == "Qoder".spec_bytes()
}

/// The names that identify a JetBrains-family client.
pub open spec fn spec_is_intellij_name(n: Seq<u8>) -> bool {
    ||| spec_contains_sub(n, "IntelliJ".spec_bytes())
    ||| spec_contains_sub(n, "JetBrains".spec_bytes())
    ||| spec_contains_sub(n, "IDEA".spec_bytes())
    ||| spec_contains_sub(n, "PyCharm".spec_bytes())
    ||| spec_contains_sub(n, "CLion".spec_bytes())
    ||| spec_contains_sub(n, "GoLand".spec_bytes())
    ||| spec_contains_sub(n, "Rider".spec_bytes())
    ||| spec_contains_sub(n, "Fleet".spec_bytes())
    ||| spec_contains_sub(n, "Android Studio".spec_bytes())
}

fn check_vscode(client_info: &ClientInfo) -> (r: bool)
    ensures
        r == spec_is_vscode_name(spec_str_bytes(client_info.name)),
{
    let name = client_info.name.as_str();
    proof {
        assert(name.spec_bytes() == spec_str_bytes(client_info.name));
    }
    if str_contains(name, "Visual Studio Code") || str_contains(name, "Code - OSS")
        || str_contains(name, "VSCodium") {
        return true;
    }
    str_eq_bytes(name, "Cursor") || str_eq_bytes(name, "Windsurf") || str_eq_bytes(name, "Trae")
        || str_eq_bytes(name, "Qoder")
}

fn check_lsp4ij(client_info: &ClientInfo) -> (r: bool)
    ensures
        r == spec_is_intellij_name(spec_str_bytes(client_info.name)),
{
    let name = client_info.name.as_str();
    proof {
        assert(name.spec_bytes() == spec_str_bytes(client_info.name));
    }
    str_contains(name, "IntelliJ") || str_contains(name, "JetBrains") || str_contains(name, "IDEA")
        || str_contains(name, "PyCharm") || str_contains(name, "CLion") || str_contains(
        name,
        "GoLand",
    ) || str_contains(name, "Rider") || str_contains(name, "Fleet") || str_contains(
        name,
        "Android Studio",
    )
}

/// How a client's announced name resolves to an editor family: the
/// two exactly-known names first, then the VS-Code family, then the
/// JetBrains family, else `Other`; no announcement means `Other`.
pub open spec fn spec_client_id(client_info: Option<ClientInfo>) -> ClientId {
    match client_info {
        None => ClientId::Other,
        Some(info) => {
            let n = spec_str_bytes(info.name);
            if n == "Visual Studio Code".spec_bytes() {
                ClientId::VSCode
            } else if n == "Neovim".spec_bytes() || n == "coc.nvim".spec_bytes() {
                ClientId::Neovim
            } else if spec_is_vscode_name(n) {
                ClientId::VSCode
            } else if spec_is_intellij_name(n) {
                ClientId::Intellij
            } else {
                ClientId::Other
            }
        },
    }
}

pub fn get_client_id(client_info: &Option<ClientInfo>) -> (r: ClientId)
    ensures
        r == spec_client_id(*client_info),
{
    match client_info {
        Some(info) => {
            let name = info.name.as_str();
            proof {
                assert(name.spec_bytes() == spec_str_bytes(info.name));
            }
            if str_eq_bytes(name, "Visual Studio Code") {
                ClientId::VSCode
            } else if str_eq_bytes(name, "Neovim") || str_eq_bytes(name, "coc.nvim") {
                ClientId::Neovim
            } else if check_vscode(info) {
                ClientId::VSCode
            } else if check_lsp4ij(info) {
                ClientId::Intellij
            } else {
                ClientId::Other
            }
        },
        None => ClientId::Other,
    }
}

} // verus!
