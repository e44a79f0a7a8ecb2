//! Which installer files answer a release query, and what the query is
//! answered when none does.

use vstd::prelude::*;
use crate::text::same_text;
use crate::files::ordinary_name;

verus! {

/// The character sequences of a list of strings.
pub open spec fn views(names: Seq<&str>) -> Seq<Seq<char>> {
    names.map_values(|n: &str| n@)
}

/// The installer file that serves the desktop editor on `os` and `arch`.
pub open spec fn editor_file_name(os: Seq<char>, arch: Seq<char>) -> Option<Seq<char>> {
    if os == "linux"@ && arch == "x86_64"@ {
        Some("burton-linux-x86_64.tar.gz"@)
    } else if os == "linux"@ && arch == "aarch64"@ {
        Some("burton-linux-aarch64.tar.gz"@)
    } else if os == "macos"@ && arch == "x86_64"@ {
        Some("Burton-x86_64.dmg"@)
    } else if os == "macos"@ && arch == "aarch64"@ {
        Some("Burton-aarch64.dmg"@)
    } else if os == "windows"@ && arch == "x86_64"@ {
        Some("Burton-x86_64.exe"@)
    } else if os == "windows"@ && arch == "aarch64"@ {
        Some("Burton-aarch64.exe"@)
    } else {
        None
    }
}

/// The archive that serves the remote server on `os` and `arch`.
pub open spec fn remote_server_file_name(os: Seq<char>, arch: Seq<char>) -> Option<Seq<char>> {
    if os == "linux"@ && arch == "x86_64"@ {
        Some("zed-remote-server-linux-x86_64.gz"@)
    } else if os == "linux"@ && arch == "aarch64"@ {
        Some("zed-remote-server-linux-aarch64.gz"@)
    } else if os == "macos"@ && arch == "x86_64"@ {
        Some("zed-remote-server-macos-x86_64.gz"@)
    } else if os == "macos"@ && arch == "aarch64"@ {
        Some("zed-remote-server-macos-aarch64.gz"@)
    } else if os == "windows"@ && arch == "x86_64"@ {
        Some("zed-remote-server-windows-x86_64.zip"@)
    } else if os == "windows"@ && arch == "aarch64"@ {
        Some("zed-remote-server-windows-aarch64.zip"@)
    } else {
        None
    }
}

/// The one file that serves `asset` on `os` and `arch`, if the table has one.
pub open spec fn spec_asset_file_name(asset: Seq<char>, os: Seq<char>, arch: Seq<char>) -> Option<
    Seq<char>,
> {
    if asset == "zed"@ {
        editor_file_name(os, arch)
    } else if asset == "zed-remote-server"@ {
        remote_server_file_name(os, arch)
    } else {
        None
    }
}

/// The installer files that serve `asset` on `os` and `arch`.
pub open spec fn spec_asset_file_names(asset: Seq<char>, os: Seq<char>, arch: Seq<char>) -> Option<
    Seq<Seq<char>>,
> {
    match spec_asset_file_name(asset, os, arch) {
        Some(name) => Some(seq![name]),
        None => None,
    }
}

/// Whether `asset` names a kind of download the server knows.
pub open spec fn spec_asset_kind_known(asset: Seq<char>) -> bool {
    asset == "zed"@ || asset == "zed-remote-server"@
}

/// The installer file of the desktop editor on `os` and `arch`.
fn editor_file(os: &str, arch: &str) -> (r: Option<&'static [&'static str]>)
    ensures
        match r {
            Some(names) => names@.len() == 1 && editor_file_name(os@, arch@) == Some(names@[0]@),
            None => editor_file_name(os@, arch@) is None,
        },
{
    let x86 = same_text(arch, "x86_64");
    let arm = same_text(arch, "aarch64");
    if same_text(os, "linux") {
        if x86 {
            return Some(&["burton-linux-x86_64.tar.gz"]);
        } else if arm {
            return Some(&["burton-linux-aarch64.tar.gz"]);
        }
    } else if same_text(os, "macos") {
        if x86 {
            return Some(&["Burton-x86_64.dmg"]);
        } else if arm {
            return Some(&["Burton-aarch64.dmg"]);
        }
    } else if same_text(os, "windows") {
        if x86 {
            return Some(&["Burton-x86_64.exe"]);
        } else if arm {
            return Some(&["Burton-aarch64.exe"]);
        }
    }
    None
}

/// The archive of the remote server on `os` and `arch`.
fn remote_server_file(os: &str, arch: &str) -> (r: Option<&'static [&'static str]>)
    ensures
        match r {
            Some(names) => names@.len() == 1 && remote_server_file_name(os@, arch@) == Some(
                names@[0]@,
            ),
            None => remote_server_file_name(os@, arch@) is None,
        },
{
    let x86 = same_text(arch, "x86_64");
    let arm = same_text(arch, "aarch64");
    if same_text(os, "linux") {
        if x86 {
            return Some(&["zed-remote-server-linux-x86_64.gz"]);
        } else if arm {
            return Some(&["zed-remote-server-linux-aarch64.gz"]);
        }
    } else if same_text(os, "macos") {
        if x86 {
            return Some(&["zed-remote-server-macos-x86_64.gz"]);
        } else if arm {
            return Some(&["zed-remote-server-macos-aarch64.gz"]);
        }
    } else if same_text(os, "windows") {
        if x86 {
            return Some(&["zed-remote-server-windows-x86_64.zip"]);
        } else if arm {
            return Some(&["zed-remote-server-windows-aarch64.zip"]);
        }
    }
    None
}

/// The installer files that serve `asset` on `os` and `arch`, if any.
pub fn asset_file_names(asset: &str, os: &str, arch: &str) -> (r: Option<&'static [&'static str]>)
    ensures
        match r {
            Some(names) => spec_asset_file_names(asset@, os@, arch@) == Some(views(names@)),
            None => spec_asset_file_names(asset@, os@, arch@) is None,
        },
{
    let file = if same_text(asset, "zed") {
        editor_file(os, arch)
    } else if same_text(asset, "zed-remote-server") {
        remote_server_file(os, arch)
    } else {
        None
    };
    if let Some(names) = file {
        assert(views(names@) =~= seq![names@[0]@]);
    }
    file
}

/// Whether `asset` names a kind of download the server knows.
pub fn asset_kind_known(asset: &str) -> (r: bool)
    ensures
        r == spec_asset_kind_known(asset@),
{
    same_text(asset, "zed") || same_text(asset, "zed-remote-server")
}

/// The asset a release query asks for when it names none.
pub fn default_asset() -> (r: String)
    ensures
        r@ == "zed"@,
{
    String::from_str("zed")
}

/// A kind of download is known exactly when some platform has a file for it.
pub proof fn lemma_known_kind_has_files(asset: Seq<char>)
    ensures
        spec_asset_kind_known(asset) <==> exists|os: Seq<char>, arch: Seq<char>|
            #[trigger] spec_asset_file_names(asset, os, arch) is Some,
{
    if spec_asset_kind_known(asset) {
        assert(spec_asset_file_names(asset, "linux"@, "x86_64"@) is Some);
    }
}


/// Each file name of the table is servable.
proof fn lemma_table_names_servable()
    ensures
        ordinary_name("burton-linux-x86_64.tar.gz"@),
        ordinary_name("burton-linux-aarch64.tar.gz"@),
        ordinary_name("Burton-x86_64.dmg"@),
        ordinary_name("Burton-aarch64.dmg"@),
        ordinary_name("Burton-x86_64.exe"@),
        ordinary_name("Burton-aarch64.exe"@),
        ordinary_name("zed-remote-server-linux-x86_64.gz"@),
        ordinary_name("zed-remote-server-linux-aarch64.gz"@),
        ordinary_name("zed-remote-server-macos-x86_64.gz"@),
        ordinary_name("zed-remote-server-macos-aarch64.gz"@),
        ordinary_name("zed-remote-server-windows-x86_64.zip"@),
        ordinary_name("zed-remote-server-windows-aarch64.zip"@),
{
    reveal_strlit(".");
    reveal_strlit("..");
    reveal_strlit("burton-linux-x86_64.tar.gz");
    reveal_strlit("burton-linux-aarch64.tar.gz");
    reveal_strlit("Burton-x86_64.dmg");
    reveal_strlit("Burton-aarch64.dmg");
    reveal_strlit("Burton-x86_64.exe");
    reveal_strlit("Burton-aarch64.exe");
    reveal_strlit("zed-remote-server-linux-x86_64.gz");
    reveal_strlit("zed-remote-server-linux-aarch64.gz");
    reveal_strlit("zed-remote-server-macos-x86_64.gz");
    reveal_strlit("zed-remote-server-macos-aarch64.gz");
    reveal_strlit("zed-remote-server-windows-x86_64.zip");
    reveal_strlit("zed-remote-server-windows-aarch64.zip");
}

/// Law: every installer file of the table is an ordinary name, which
/// `safe_file_name` accepts as it is, so each download link the server
/// hands out names a file that `/files/` serves.
pub proof fn lemma_asset_files_are_servable(asset: Seq<char>, os: Seq<char>, arch: Seq<char>)
    ensures
        spec_asset_file_names(asset, os, arch) matches Some(names) ==> forall|i: int|
            0 <= i < names.len() ==> ordinary_name(#[trigger] names[i]),
{
    lemma_table_names_servable();
    if let Some(names) = spec_asset_file_names(asset, os, arch) {
        assert(names.len() == 1);
        assert(ordinary_name(names[0]));
    }
}

/// The file names of the table differ from one another.
proof fn lemma_table_names_distinct()
    ensures
        "burton-linux-x86_64.tar.gz"@ != "burton-linux-aarch64.tar.gz"@,
        "burton-linux-x86_64.tar.gz"@ != "Burton-x86_64.dmg"@,
        "burton-linux-x86_64.tar.gz"@ != "Burton-aarch64.dmg"@,
        "burton-linux-x86_64.tar.gz"@ != "Burton-x86_64.exe"@,
        "burton-linux-x86_64.tar.gz"@ != "Burton-aarch64.exe"@,
        "burton-linux-x86_64.tar.gz"@ != "zed-remote-server-linux-x86_64.gz"@,
        "burton-linux-x86_64.tar.gz"@ != "zed-remote-server-linux-aarch64.gz"@,
        "burton-linux-x86_64.tar.gz"@ != "zed-remote-server-macos-x86_64.gz"@,
        "burton-linux-x86_64.tar.gz"@ != "zed-remote-server-macos-aarch64.gz"@,
        "burton-linux-x86_64.tar.gz"@ != "zed-remote-server-windows-x86_64.zip"@,
        "burton-linux-x86_64.tar.gz"@ != "zed-remote-server-windows-aarch64.zip"@,
        "burton-linux-aarch64.tar.gz"@ != "Burton-x86_64.dmg"@,
        "burton-linux-aarch64.tar.gz"@ != "Burton-aarch64.dmg"@,
        "burton-linux-aarch64.tar.gz"@ != "Burton-x86_64.exe"@,
        "burton-linux-aarch64.tar.gz"@ != "Burton-aarch64.exe"@,
        "burton-linux-aarch64.tar.gz"@ != "zed-remote-server-linux-x86_64.gz"@,
        "burton-linux-aarch64.tar.gz"@ != "zed-remote-server-linux-aarch64.gz"@,
        "burton-linux-aarch64.tar.gz"@ != "zed-remote-server-macos-x86_64.gz"@,
        "burton-linux-aarch64.tar.gz"@ != "zed-remote-server-macos-aarch64.gz"@,
        "burton-linux-aarch64.tar.gz"@ != "zed-remote-server-windows-x86_64.zip"@,
        "burton-linux-aarch64.tar.gz"@ != "zed-remote-server-windows-aarch64.zip"@,
        "Burton-x86_64.dmg"@ != "Burton-aarch64.dmg"@,
        "Burton-x86_64.dmg"@ != "Burton-x86_64.exe"@,
        "Burton-x86_64.dmg"@ != "Burton-aarch64.exe"@,
        "Burton-x86_64.dmg"@ != "zed-remote-server-linux-x86_64.gz"@,
        "Burton-x86_64.dmg"@ != "zed-remote-server-linux-aarch64.gz"@,
        "Burton-x86_64.dmg"@ != "zed-remote-server-macos-x86_64.gz"@,
        "Burton-x86_64.dmg"@ != "zed-remote-server-macos-aarch64.gz"@,
        "Burton-x86_64.dmg"@ != "zed-remote-server-windows-x86_64.zip"@,
        "Burton-x86_64.dmg"@ != "zed-remote-server-windows-aarch64.zip"@,
        "Burton-aarch64.dmg"@ != "Burton-x86_64.exe"@,
        "Burton-aarch64.dmg"@ != "Burton-aarch64.exe"@,
        "Burton-aarch64.dmg"@ != "zed-remote-server-linux-x86_64.gz"@,
        "Burton-aarch64.dmg"@ != "zed-remote-server-linux-aarch64.gz"@,
        "Burton-aarch64.dmg"@ != "zed-remote-server-macos-x86_64.gz"@,
        "Burton-aarch64.dmg"@ != "zed-remote-server-macos-aarch64.gz"@,
        "Burton-aarch64.dmg"@ != "zed-remote-server-windows-x86_64.zip"@,
        "Burton-aarch64.dmg"@ != "zed-remote-server-windows-aarch64.zip"@,
        "Burton-x86_64.exe"@ != "Burton-aarch64.exe"@,
        "Burton-x86_64.exe"@ != "zed-remote-server-linux-x86_64.gz"@,
        "Burton-x86_64.exe"@ != "zed-remote-server-linux-aarch64.gz"@,
        "Burton-x86_64.exe"@ != "zed-remote-server-macos-x86_64.gz"@,
        "Burton-x86_64.exe"@ != "zed-remote-server-macos-aarch64.gz"@,
        "Burton-x86_64.exe"@ != "zed-remote-server-windows-x86_64.zip"@,
        "Burton-x86_64.exe"@ != "zed-remote-server-windows-aarch64.zip"@,
        "Burton-aarch64.exe"@ != "zed-remote-server-linux-x86_64.gz"@,
        "Burton-aarch64.exe"@ != "zed-remote-server-linux-aarch64.gz"@,
        "Burton-aarch64.exe"@ != "zed-remote-server-macos-x86_64.gz"@,
        "Burton-aarch64.exe"@ != "zed-remote-server-macos-aarch64.gz"@,
        "Burton-aarch64.exe"@ != "zed-remote-server-windows-x86_64.zip"@,
        "Burton-aarch64.exe"@ != "zed-remote-server-windows-aarch64.zip"@,
        "zed-remote-server-linux-x86_64.gz"@ != "zed-remote-server-linux-aarch64.gz"@,
        "zed-remote-server-linux-x86_64.gz"@ != "zed-remote-server-macos-x86_64.gz"@,
        "zed-remote-server-linux-x86_64.gz"@ != "zed-remote-server-macos-aarch64.gz"@,
        "zed-remote-server-linux-x86_64.gz"@ != "zed-remote-server-windows-x86_64.zip"@,
        "zed-remote-server-linux-x86_64.gz"@ != "zed-remote-server-windows-aarch64.zip"@,
        "zed-remote-server-linux-aarch64.gz"@ != "zed-remote-server-macos-x86_64.gz"@,
        "zed-remote-server-linux-aarch64.gz"@ != "zed-remote-server-macos-aarch64.gz"@,
        "zed-remote-server-linux-aarch64.gz"@ != "zed-remote-server-windows-x86_64.zip"@,
        "zed-remote-server-linux-aarch64.gz"@ != "zed-remote-server-windows-aarch64.zip"@,
        "zed-remote-server-macos-x86_64.gz"@ != "zed-remote-server-macos-aarch64.gz"@,
        "zed-remote-server-macos-x86_64.gz"@ != "zed-remote-server-windows-x86_64.zip"@,
        "zed-remote-server-macos-x86_64.gz"@ != "zed-remote-server-windows-aarch64.zip"@,
        "zed-remote-server-macos-aarch64.gz"@ != "zed-remote-server-windows-x86_64.zip"@,
        "zed-remote-server-macos-aarch64.gz"@ != "zed-remote-server-windows-aarch64.zip"@,
        "zed-remote-server-windows-x86_64.zip"@ != "zed-remote-server-windows-aarch64.zip"@,
{
    reveal_strlit("burton-linux-x86_64.tar.gz");
    reveal_strlit("burton-linux-aarch64.tar.gz");
    reveal_strlit("Burton-x86_64.dmg");
    reveal_strlit("Burton-aarch64.dmg");
    reveal_strlit("Burton-x86_64.exe");
    reveal_strlit("Burton-aarch64.exe");
    reveal_strlit("zed-remote-server-linux-x86_64.gz");
    reveal_strlit("zed-remote-server-linux-aarch64.gz");
    reveal_strlit("zed-remote-server-macos-x86_64.gz");
    reveal_strlit("zed-remote-server-macos-aarch64.gz");
    reveal_strlit("zed-remote-server-windows-x86_64.zip");
    reveal_strlit("zed-remote-server-windows-aarch64.zip");
    assert("burton-linux-x86_64.tar.gz"@.len() != "burton-linux-aarch64.tar.gz"@.len());
    assert("burton-linux-x86_64.tar.gz"@.len() != "Burton-x86_64.dmg"@.len());
    assert("burton-linux-x86_64.tar.gz"@.len() != "Burton-aarch64.dmg"@.len());
    assert("burton-linux-x86_64.tar.gz"@.len() != "Burton-x86_64.exe"@.len());
    assert("burton-linux-x86_64.tar.gz"@.len() != "Burton-aarch64.exe"@.len());
    assert("burton-linux-x86_64.tar.gz"@.len() != "zed-remote-server-linux-x86_64.gz"@.len());
    assert("burton-linux-x86_64.tar.gz"@.len() != "zed-remote-server-linux-aarch64.gz"@.len());
    assert("burton-linux-x86_64.tar.gz"@.len() != "zed-remote-server-macos-x86_64.gz"@.len());
    assert("burton-linux-x86_64.tar.gz"@.len() != "zed-remote-server-macos-aarch64.gz"@.len());
    assert("burton-linux-x86_64.tar.gz"@.len() != "zed-remote-server-windows-x86_64.zip"@.len());
    assert("burton-linux-x86_64.tar.gz"@.len() != "zed-remote-server-windows-aarch64.zip"@.len());
    assert("burton-linux-aarch64.tar.gz"@.len() != "Burton-x86_64.dmg"@.len());
    assert("burton-linux-aarch64.tar.gz"@.len() != "Burton-aarch64.dmg"@.len());
    assert("burton-linux-aarch64.tar.gz"@.len() != "Burton-x86_64.exe"@.len());
    assert("burton-linux-aarch64.tar.gz"@.len() != "Burton-aarch64.exe"@.len());
    assert("burton-linux-aarch64.tar.gz"@.len() != "zed-remote-server-linux-x86_64.gz"@.len());
    assert("burton-linux-aarch64.tar.gz"@.len() != "zed-remote-server-linux-aarch64.gz"@.len());
    assert("burton-linux-aarch64.tar.gz"@.len() != "zed-remote-server-macos-x86_64.gz"@.len());
    assert("burton-linux-aarch64.tar.gz"@.len() != "zed-remote-server-macos-aarch64.gz"@.len());
    assert("burton-linux-aarch64.tar.gz"@.len() != "zed-remote-server-windows-x86_64.zip"@.len());
    assert("burton-linux-aarch64.tar.gz"@.len() != "zed-remote-server-windows-aarch64.zip"@.len());
    assert("Burton-x86_64.dmg"@.len() != "Burton-aarch64.dmg"@.len());
    assert("Burton-x86_64.dmg"@[14] != "Burton-x86_64.exe"@[14]);
    assert("Burton-x86_64.dmg"@.len() != "Burton-aarch64.exe"@.len());
    assert("Burton-x86_64.dmg"@.len() != "zed-remote-server-linux-x86_64.gz"@.len());
    assert("Burton-x86_64.dmg"@.len() != "zed-remote-server-linux-aarch64.gz"@.len());
    assert("Burton-x86_64.dmg"@.len() != "zed-remote-server-macos-x86_64.gz"@.len());
    assert("Burton-x86_64.dmg"@.len() != "zed-remote-server-macos-aarch64.gz"@.len());
    assert("Burton-x86_64.dmg"@.len() != "zed-remote-server-windows-x86_64.zip"@.len());
    assert("Burton-x86_64.dmg"@.len() != "zed-remote-server-windows-aarch64.zip"@.len());
    assert("Burton-aarch64.dmg"@.len() != "Burton-x86_64.exe"@.len());
    assert("Burton-aarch64.dmg"@[15] != "Burton-aarch64.exe"@[15]);
    assert("Burton-aarch64.dmg"@.len() != "zed-remote-server-linux-x86_64.gz"@.len());
    assert("Burton-aarch64.dmg"@.len() != "zed-remote-server-linux-aarch64.gz"@.len());
    assert("Burton-aarch64.dmg"@.len() != "zed-remote-server-macos-x86_64.gz"@.len());
    assert("Burton-aarch64.dmg"@.len() != "zed-remote-server-macos-aarch64.gz"@.len());
    assert("Burton-aarch64.dmg"@.len() != "zed-remote-server-windows-x86_64.zip"@.len());
    assert("Burton-aarch64.dmg"@.len() != "zed-remote-server-windows-aarch64.zip"@.len());
    assert("Burton-x86_64.exe"@.len() != "Burton-aarch64.exe"@.len());
    assert("Burton-x86_64.exe"@.len() != "zed-remote-server-linux-x86_64.gz"@.len());
    assert("Burton-x86_64.exe"@.len() != "zed-remote-server-linux-aarch64.gz"@.len());
    assert("Burton-x86_64.exe"@.len() != "zed-remote-server-macos-x86_64.gz"@.len());
    assert("Burton-x86_64.exe"@.len() != "zed-remote-server-macos-aarch64.gz"@.len());
    assert("Burton-x86_64.exe"@.len() != "zed-remote-server-windows-x86_64.zip"@.len());
    assert("Burton-x86_64.exe"@.len() != "zed-remote-server-windows-aarch64.zip"@.len());
    assert("Burton-aarch64.exe"@.len() != "zed-remote-server-linux-x86_64.gz"@.len());
    assert("Burton-aarch64.exe"@.len() != "zed-remote-server-linux-aarch64.gz"@.len());
    assert("Burton-aarch64.exe"@.len() != "zed-remote-server-macos-x86_64.gz"@.len());
    assert("Burton-aarch64.exe"@.len() != "zed-remote-server-macos-aarch64.gz"@.len());
    assert("Burton-aarch64.exe"@.len() != "zed-remote-server-windows-x86_64.zip"@.len());
    assert("Burton-aarch64.exe"@.len() != "zed-remote-server-windows-aarch64.zip"@.len());
    assert("zed-remote-server-linux-x86_64.gz"@.len() != "zed-remote-server-linux-aarch64.gz"@.len());
    assert("zed-remote-server-linux-x86_64.gz"@[18] != "zed-remote-server-macos-x86_64.gz"@[18]);
    assert("zed-remote-server-linux-x86_64.gz"@.len() != "zed-remote-server-macos-aarch64.gz"@.len());
    assert("zed-remote-server-linux-x86_64.gz"@.len() != "zed-remote-server-windows-x86_64.zip"@.len());
    assert("zed-remote-server-linux-x86_64.gz"@.len() != "zed-remote-server-windows-aarch64.zip"@.len());
    assert("zed-remote-server-linux-aarch64.gz"@.len() != "zed-remote-server-macos-x86_64.gz"@.len());
    assert("zed-remote-server-linux-aarch64.gz"@[18] != "zed-remote-server-macos-aarch64.gz"@[18]);
    assert("zed-remote-server-linux-aarch64.gz"@.len() != "zed-remote-server-windows-x86_64.zip"@.len());
    assert("zed-remote-server-linux-aarch64.gz"@.len() != "zed-remote-server-windows-aarch64.zip"@.len());
    assert("zed-remote-server-macos-x86_64.gz"@.len() != "zed-remote-server-macos-aarch64.gz"@.len());
    assert("zed-remote-server-macos-x86_64.gz"@.len() != "zed-remote-server-windows-x86_64.zip"@.len());
    assert("zed-remote-server-macos-x86_64.gz"@.len() != "zed-remote-server-windows-aarch64.zip"@.len());
    assert("zed-remote-server-macos-aarch64.gz"@.len() != "zed-remote-server-windows-x86_64.zip"@.len());
    assert("zed-remote-server-macos-aarch64.gz"@.len() != "zed-remote-server-windows-aarch64.zip"@.len());
    assert("zed-remote-server-windows-x86_64.zip"@.len() != "zed-remote-server-windows-aarch64.zip"@.len());
}

/// Law: no two queries share an installer file, so a file name tells which
/// asset, system and architecture it serves.
pub proof fn lemma_asset_files_are_distinct(
    a1: Seq<char>,
    o1: Seq<char>,
    r1: Seq<char>,
    a2: Seq<char>,
    o2: Seq<char>,
    r2: Seq<char>,
)
    requires
        spec_asset_file_name(a1, o1, r1) is Some,
        spec_asset_file_name(a1, o1, r1) == spec_asset_file_name(a2, o2, r2),
    ensures
        a1 == a2 && o1 == o2 && r1 == r2,
{
    lemma_table_names_distinct();
}

} // verus!
