//! File paths as text, in the POSIX notation.
use vstd::prelude::*;
use vstd::string::*;
use crate::outside::uppercase;
use crate::text::{chars_of, opt_view, same, split, split_on, views};

verus! {

/// The path names a place without regard to a working directory.
pub open spec fn is_absolute_path(p: Seq<char>) -> bool {
    p.len() > 0 && p.first() == '/'
}

/// `name` taken relative to `root`; an absolute `name` stands for itself.
pub open spec fn joined(root: Seq<char>, name: Seq<char>) -> Seq<char> {
    if is_absolute_path(name) || root.len() == 0 {
        name
    } else if root.last() == '/' {
        root + name
    } else {
        root + "/"@ + name
    }
}

/// The last of the components that is neither empty nor `.`.
pub open spec fn last_component(parts: Seq<Seq<char>>) -> Option<Seq<char>>
    decreases parts.len(),
{
    if parts.len() == 0 {
        None
    } else if parts.last().len() == 0 || parts.last() == "."@ {
        last_component(parts.drop_last())
    } else {
        Some(parts.last())
    }
}

/// The final component of a path, unless the path is a root or ends in `..`.
pub open spec fn file_name_of(p: Seq<char>) -> Option<Seq<char>> {
    match last_component(split_on(p, '/')) {
        Some(c) => if c == ".."@ {
            None
        } else {
            Some(c)
        },
        None => None,
    }
}

/// Tells whether a path is absolute.
pub fn is_absolute(p: &str) -> (r: bool)
    ensures
        r == is_absolute_path(p@),
{
    let v: Vec<char> = chars_of(p);
    v.len() > 0 && v[0] == '/'
}

/// Takes `name` relative to `root`.
pub fn join(root: &str, name: &str) -> (r: String)
    ensures
        r@ == joined(root@, name@),
{
    let v: Vec<char> = chars_of(root);
    if is_absolute(name) || v.len() == 0 {
        return name.to_owned();
    }
    let r: String = root.to_owned();
    if v[v.len() - 1] == '/' {
        r.concat(name)
    } else {
        r.concat("/").concat(name)
    }
}

/// The final component of a path.
pub fn file_name(p: &str) -> (r: Option<String>)
    ensures
        opt_view(r) == file_name_of(p@),
{
    let parts: Vec<String> = split(p, '/');
    let mut i: usize = parts.len();
    let ghost all = views(parts@);
    assert(all.take(i as int) =~= all);
    while i > 0
        invariant
            i <= parts@.len(),
            all == views(parts@),
            all == split_on(p@, '/'),
            last_component(all) == last_component(all.take(i as int)),
        decreases i,
    {
        let part: &String = &parts[i - 1];
        assert(all[i - 1] == part@);
        assert(all.take(i as int).drop_last() =~= all.take(i - 1));
        if !part.as_str().is_empty() && !same(part, ".") {
            if same(part, "..") {
                return None;
            }
            return Some(part.clone());
        }
        i = i - 1;
    }
    None
}

/// The folder below `root` that is named after an id in upper case.
pub open spec fn sketch_path(root: Seq<char>, upper_id: Seq<char>) -> Seq<char> {
    joined(root, "ESP32_"@ + upper_id + "_MQTT_TLS"@)
}

/// Where the sketch of a device is looked for when the device names no folder.
pub open spec fn default_sketch_path(root: Seq<char>, id: Seq<char>) -> Seq<char> {
    sketch_path(root, uppercase(id))
}

/// The folder below `root` that is named after an id in upper case.
pub fn sketch_dir_named(root: &str, upper_id: &str) -> (r: String)
    ensures
        r@ == sketch_path(root@, upper_id@),
{
    let name: String = "ESP32_".to_owned().concat(upper_id).concat("_MQTT_TLS");
    join(root, name.as_str())
}

/// The folder that a device without one of its own has its sketch in.
pub fn default_sketch_dir(root: &str, id: &str) -> (r: String)
    ensures
        r@ == default_sketch_path(root@, id@),
{
    sketch_dir_named(root, id.to_uppercase().as_str())
}

/// The folder of a sketch, a relative one taken below the root of all sketches.
pub fn resolve_sketch_dir(root: &str, sketch_dir: &str) -> (r: String)
    ensures
        r@ == joined(root@, sketch_dir@),
        is_absolute_path(sketch_dir@) ==> r@ == sketch_dir@,
{
    if is_absolute(sketch_dir) {
        sketch_dir.to_owned()
    } else {
        join(root, sketch_dir)
    }
}

/// Resolving a folder that is resolved already changes nothing, once the root is absolute.
pub proof fn law_resolving_twice(root: Seq<char>, dir: Seq<char>)
    requires
        is_absolute_path(root),
    ensures
        is_absolute_path(joined(root, dir)),
        joined(root, joined(root, dir)) == joined(root, dir),
{
}

} // verus!
