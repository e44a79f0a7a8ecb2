//! What a release query is answered: the files to look for, the messages
//! when there are none, and the download link when one is found.

use vstd::prelude::*;
use crate::assets::{asset_file_names, asset_kind_known, spec_asset_file_names, spec_asset_kind_known, views};

verus! {

/// The message for a query whose asset and platform have no file: known
/// assets name the platform, other assets name themselves.
pub open spec fn lookup_error_message(asset: Seq<char>, os: Seq<char>, arch: Seq<char>) -> Seq<char> {
    if spec_asset_kind_known(asset) {
        "no artifact mapping for os="@ + os + " arch="@ + arch
    } else {
        "unsupported asset "@ + asset
    }
}

/// The items of `list` with `sep` between each two.
pub open spec fn join(list: Seq<Seq<char>>, sep: Seq<char>) -> Seq<char>
    decreases list.len(),
{
    if list.len() == 0 {
        Seq::empty()
    } else if list.len() == 1 {
        list[0]
    } else {
        join(list.drop_last(), sep) + sep + list.last()
    }
}

/// The files that answer a release query, or the message it is refused with.
pub fn release_asset_files(asset: &str, os: &str, arch: &str) -> (r: Result<&'static [&'static str], String>)
    ensures
        match r {
            Ok(names) => spec_asset_file_names(asset@, os@, arch@) == Some(views(names@)),
            Err(message) => spec_asset_file_names(asset@, os@, arch@) is None && message@
                == lookup_error_message(asset@, os@, arch@),
        },
{
    match asset_file_names(asset, os, arch) {
        Some(names) => Ok(names),
        None => {
            if asset_kind_known(asset) {
                let mut message = String::from_str("no artifact mapping for os=");
                message.append(os);
                message.append(" arch=");
                message.append(arch);
                Err(message)
            } else {
                let mut message = String::from_str("unsupported asset ");
                message.append(asset);
                Err(message)
            }
        },
    }
}

/// The message when none of `names` was found: `missing a or b`.
pub fn missing_artifact_message(names: &[&str]) -> (r: String)
    ensures
        r@ == "missing "@ + join(views(names@), " or "@),
{
    let mut list = String::new();
    let mut i: usize = 0;
    while i < names.len()
        invariant
            i <= names@.len(),
            list@ == join(views(names@.take(i as int)), " or "@),
        decreases names@.len() - i,
    {
        proof {
            let before = views(names@.take(i as int));
            let after = views(names@.take(i + 1));
            assert(after.drop_last() =~= before);
            assert(after.last() == names@[i as int]@);
        }
        if i > 0 {
            list.append(" or ");
        }
        list.append(names[i]);
        i = i + 1;
    }
    proof {
        assert(names@.take(names@.len() as int) =~= names@);
    }
    let mut message = String::from_str("missing ");
    message.append(list.as_str());
    message
}

/// The download link of `file_name` under `origin`.
pub fn release_download_url(origin: &str, file_name: &str) -> (r: String)
    ensures
        r@ == origin@ + "/files/"@ + file_name@,
{
    let mut url = String::from_str(origin);
    url.append("/files/");
    url.append(file_name);
    url
}

} // verus!
