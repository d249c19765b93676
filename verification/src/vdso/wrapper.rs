//! The crate that wraps the code of a shared object so that it can be built on its own.

use vstd::prelude::*;
use vstd::string::*;

verus! {

/// How a shared object is built.
pub struct BuildConfig {
    /// The package of the code.
    pub package_name: String,
    /// Its features.
    pub features: Vec<String>,
}

/// How many names two paths have in common at their beginning.
pub open spec fn common_names(from: Seq<Seq<char>>, to: Seq<Seq<char>>) -> nat
    decreases from.len(),
{
    if from.len() == 0 || to.len() == 0 || from[0] != to[0] {
        0
    } else {
        1 + common_names(from.skip(1), to.skip(1))
    }
}

/// The names of a path.
pub open spec fn names(path: Seq<String>) -> Seq<Seq<char>> {
    path.map_values(|name: String| name@)
}

/// The path from one directory to another: up to where their paths part, then down.
pub open spec fn relative_names(from: Seq<Seq<char>>, to: Seq<Seq<char>>) -> Seq<Seq<char>> {
    let common = common_names(from, to);
    Seq::new((from.len() - common) as nat, |i: int| ".."@) + to.skip(common as int)
}

proof fn lemma_common_names(from: Seq<Seq<char>>, to: Seq<Seq<char>>, n: nat)
    requires
        n <= from.len(),
        n <= to.len(),
        forall|i: int| 0 <= i < n ==> from[i] == to[i],
    ensures
        common_names(from, to) == n + common_names(from.skip(n as int), to.skip(n as int)),
    decreases n,
{
    if n == 0 {
        assert(from.skip(0) =~= from);
        assert(to.skip(0) =~= to);
    } else {
        lemma_common_names(from.skip(1), to.skip(1), (n - 1) as nat);
        assert(from.skip(1).skip(n - 1) =~= from.skip(n as int));
        assert(to.skip(1).skip(n - 1) =~= to.skip(n as int));
    }
}

/// The path from one directory to another, both given by the names of their paths from the
/// root. The two are not the same.
pub fn relative_path(from: &Vec<String>, to: &Vec<String>) -> (path: Vec<String>)
    requires
        names(from@) != names(to@),
    ensures
        names(path@) == relative_names(names(from@), names(to@)),
{
    let mut common: usize = 0;
    while common < from.len() && common < to.len() && from[common].eq(&to[common])
        invariant
            common <= from@.len(),
            common <= to@.len(),
            forall|i: int| 0 <= i < common ==> from@[i]@ == to@[i]@,
        decreases from@.len() - common,
    {
        common += 1;
    }
    proof {
        let f = names(from@);
        let t = names(to@);
        assert forall|i: int| 0 <= i < common implies f[i] == t[i] by {
            assert(from@[i]@ == to@[i]@);
        }
        lemma_common_names(f, t, common as nat);
        if common < f.len() && common < t.len() {
            assert(f.skip(common as int)[0] == from@[common as int]@);
            assert(t.skip(common as int)[0] == to@[common as int]@);
        }
        assert(common_names(f, t) == common);
    }
    let mut path: Vec<String> = Vec::new();
    let mut i: usize = common;
    while i < from.len()
        invariant
            common <= i <= from@.len(),
            names(path@) =~= Seq::new((i - common) as nat, |j: int| ".."@),
        decreases from@.len() - i,
    {
        let ghost before = path@;
        path.push(String::from_str(".."));
        assert(names(path@) =~= names(before).push(".."@));
        i += 1;
    }
    let mut j: usize = common;
    while j < to.len()
        invariant
            common <= j <= to@.len(),
            common <= from@.len(),
            names(path@) =~= Seq::new((from@.len() - common) as nat, |k: int| ".."@) + names(
                to@,
            ).subrange(common as int, j as int),
        decreases to@.len() - j,
    {
        let ghost before = path@;
        path.push(to[j].clone());
        assert(names(path@) =~= names(before).push(to@[j as int]@));
        assert(names(to@).subrange(common as int, j + 1) =~= names(to@).subrange(
            common as int,
            j as int,
        ).push(to@[j as int]@));
        j += 1;
    }
    assert(names(to@).subrange(common as int, to@.len() as int) =~= names(to@).skip(
        common as int,
    ));
    path
}

/// Features as a list of a manifest: each in quotation marks, with commas between them.
pub open spec fn feature_list(features: Seq<Seq<char>>) -> Seq<char>
    decreases features.len(),
{
    if features.len() == 0 {
        Seq::empty()
    } else if features.len() == 1 {
        "\""@ + features[0] + "\""@
    } else {
        feature_list(features.drop_last()) + ", \""@ + features.last() + "\""@
    }
}

fn write_features(features: &Vec<String>) -> (list: String)
    ensures
        list@ == feature_list(names(features@)),
{
    let mut list: String = String::new();
    let mut i: usize = 0;
    while i < features.len()
        invariant
            i <= features@.len(),
            list@ == feature_list(names(features@).take(i as int)),
        decreases features@.len() - i,
    {
        proof {
            let before = names(features@).take(i as int);
            let after = names(features@).take(i + 1);
            assert(after.drop_last() =~= before);
            assert(after.last() == features@[i as int]@);
            reveal_strlit("\"");
            reveal_strlit(", \"");
        }
        if i == 0 {
            list.append("\"");
        } else {
            list.append(", \"");
        }
        list.append(features[i].as_str());
        list.append("\"");
        assert(list@ =~= feature_list(names(features@).take(i + 1)));
        i += 1;
    }
    assert(names(features@).take(features@.len() as int) =~= names(features@));
    list
}

/// The manifest of a wrapper, up to the name of the package that it wraps.
pub const MANIFEST_HEAD: &'static str = "[package]\nname = \"vdso_wrapper\"\nedition = \"2021\"\n\n[lib]\ncrate-type = [\"staticlib\"]\n\n[profile.dev]\npanic = \"abort\"\n\n[profile.release]\npanic = \"abort\"\n\n[dependencies]\n";

/// The manifest of the crate that wraps a package. `path` leads from the crate to the package.
pub fn cargo_toml_content(config: &BuildConfig, path: &str) -> (text: String)
    ensures
        text@ == MANIFEST_HEAD@ + config.package_name@ + " = { path = \""@ + path@
            + "\", features = ["@ + feature_list(names(config.features@)) + "] }\n"@,
{
    let features: String = write_features(&config.features);
    let mut text: String = String::from_str(MANIFEST_HEAD);
    text.append(config.package_name.as_str());
    text.append(" = { path = \"");
    text.append(path);
    text.append("\", features = [");
    text.append(features.as_str());
    text.append("] }\n");
    text
}

/// What stands before the name of the package in the code of a wrapper.
pub const WRAPPER_HEAD: &'static str = "#![no_std]\n\npub use ";

/// What stands after it.
pub const WRAPPER_TAIL: &'static str = "::*;\n\n#[panic_handler]\nfn panic(_info: &core::panic::PanicInfo) -> ! {\n    panic_loop();\n}\n\n/// 导出此符号，从而确认当在vdso中panic时，会在哪个地址循环。\n#[no_mangle]\npub fn panic_loop() -> ! {\n    loop {}\n}\n\n";

/// The code of the crate that wraps a package.
pub fn lib_rs_content(config: &BuildConfig) -> (text: String)
    ensures
        text@ == WRAPPER_HEAD@ + config.package_name@ + WRAPPER_TAIL@,
{
    let mut text: String = String::from_str(WRAPPER_HEAD);
    text.append(config.package_name.as_str());
    text.append(WRAPPER_TAIL);
    text
}

proof fn lemma_common_is_shared(from: Seq<Seq<char>>, to: Seq<Seq<char>>)
    ensures
        common_names(from, to) <= from.len(),
        common_names(from, to) <= to.len(),
        forall|i: int| 0 <= i < common_names(from, to) ==> from[i] == to[i],
    decreases from.len(),
{
    if from.len() > 0 && to.len() > 0 && from[0] == to[0] {
        lemma_common_is_shared(from.skip(1), to.skip(1));
        assert forall|i: int| 0 <= i < common_names(from, to) implies from[i] == to[i] by {
            if i > 0 {
                assert(from.skip(1)[i - 1] == to.skip(1)[i - 1]);
            }
        }
    }
}

/// Whoever goes the relative path from the first directory comes to the second: as many names
/// as the path goes up are taken off, and the rest of the path is put on.
pub proof fn law_relative_path_leads_there(from: Seq<Seq<char>>, to: Seq<Seq<char>>)
    ensures
        ({
            let path = relative_names(from, to);
            let up = from.len() - common_names(from, to);
            from.take(from.len() - up) + path.skip(up as int) == to
        }),
{
    lemma_common_is_shared(from, to);
    let path = relative_names(from, to);
    let common = common_names(from, to);
    let up = from.len() - common;
    assert(path.skip(up as int) =~= to.skip(common as int));
    assert(from.take(common as int) + to.skip(common as int) =~= to);
}

} // verus!
