//! Module-name resolution for relative imports.
//!
//! When relative imports are enabled, an imported name that begins with the
//! relative marker `@` is rewritten against its importer:
//! `@x` imported from `m` resolves to `m/x`. Every other name passes through
//! unchanged. Only a single leading marker is significant; any further
//! markers are left for the VM to interpret.

use vstd::prelude::*;
use vstd::string::StrSliceExecFns;
use vstd::string::StringExecFns;

verus! {

/// The resolved form of `name` imported from `importer`.
pub open spec fn spec_canonical(importer: Seq<char>, name: Seq<char>) -> Seq<char> {
    if name.len() >= 1 && name[0] == '@' {
        importer + seq!['/'] + name.skip(1)
    } else {
        name
    }
}

/// Resolve an imported module name against its importer: a leading `@` is
/// replaced by `<importer>/`; any other name is returned unchanged.
pub fn canonicalize_module_name(importer: &str, name: &str) -> (r: String)
    ensures
        r@ == spec_canonical(importer@, name@),
{
    let name_len = name.unicode_len();
    if name_len >= 1 && name.get_char(0) == '@' {
        let mut r = String::from_str(importer);
        r.append("/");
        let rest = name.substring_char(1, name_len);
        r.append(rest);
        proof {
            reveal_strlit("/");
            assert(r@ =~= importer@ + seq!['/'] + name@.skip(1));
        }
        r
    } else {
        String::from_str(name)
    }
}

} // verus!
