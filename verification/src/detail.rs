//! The data the `info` operation displays about one package, and the
//! selection of feature names and default features from its feature map.

use vstd::prelude::*;

verus! {

/// One entry of a package version's feature map: a feature name and the
/// list of features it enables.
#[derive(Debug)]
pub struct Feature {
    pub name: String,
    pub enables: Vec<String>,
}

/// Everything the `info` operation displays about one package, as plain
/// values: the package's core fields together with the license and the
/// feature map of its latest version.
#[derive(Debug)]
pub struct PackageDetail {
    pub name: String,
    pub license: Option<String>,
    pub documentation: Option<String>,
    pub homepage: Option<String>,
    pub repository: Option<String>,
    pub downloads: u64,
    pub versions: Vec<String>,
    pub keywords: Vec<String>,
    pub categories: Vec<String>,
    pub features: Vec<Feature>,
    pub description: Option<String>,
}

/// The reserved feature name whose entry is shown as `Default Features`
/// rather than among the feature names.
pub open spec fn default_key() -> Seq<char> {
    "default"@
}

fn is_default_name(s: &String) -> (r: bool)
    ensures
        r == (s@ == default_key()),
{
    let d: String = "default".to_owned();
    *s == d
}

fn clone_strings(v: &Vec<String>) -> (r: Vec<String>)
    ensures
        r@ == v@,
{
    let mut r: Vec<String> = Vec::new();
    let mut i: usize = 0;
    while i < v.len()
        invariant
            i <= v@.len(),
            r@ == v@.take(i as int),
        decreases v@.len() - i,
    {
        r.push(v[i].clone());
        assert(r@ =~= v@.take(i as int + 1));
        i = i + 1;
    }
    assert(r@ =~= v@);
    r
}

/// The names shown in the `Features` list: every feature name except the
/// reserved `"default"` entry, in the given order.
pub open spec fn spec_feature_names(fs: Seq<Feature>) -> Seq<Seq<char>>
    decreases fs.len(),
{
    if fs.len() == 0 {
        Seq::empty()
    } else if fs[0].name@ == default_key() {
        spec_feature_names(fs.drop_first())
    } else {
        seq![fs[0].name@] + spec_feature_names(fs.drop_first())
    }
}

/// The list shown as `Default Features`: the `enables` of the first
/// feature named `"default"`, or empty when none is.
pub open spec fn spec_default_features(fs: Seq<Feature>) -> Seq<Seq<char>>
    decreases fs.len(),
{
    if fs.len() == 0 {
        Seq::empty()
    } else if fs[0].name@ == default_key() {
        fs[0].enables.deep_view()
    } else {
        spec_default_features(fs.drop_first())
    }
}

fn collect_feature_names(out: &mut Vec<String>, fs: &Vec<Feature>, from: usize)
    requires
        from <= fs@.len(),
    ensures
        final(out).deep_view() == old(out).deep_view() + spec_feature_names(
            fs@.skip(from as int),
        ),
    decreases fs@.len() - from,
{
    if from < fs.len() {
        let ghost mid = out.deep_view();
        if !is_default_name(&fs[from].name) {
            let name = fs[from].name.clone();
            out.push(name);
            proof {
                assert(out.deep_view() =~= mid.push(fs@[from as int].name@));
            }
        }
        collect_feature_names(out, fs, from + 1);
        proof {
            assert(fs@.skip(from as int).drop_first() =~= fs@.skip(from as int + 1));
            assert(fs@.skip(from as int)[0] == fs@[from as int]);
            assert(final(out).deep_view() =~= old(out).deep_view() + spec_feature_names(
                fs@.skip(from as int),
            ));
        }
    } else {
        proof {
            assert(fs@.skip(from as int).len() == 0);
            assert(final(out).deep_view() =~= old(out).deep_view() + spec_feature_names(
                fs@.skip(from as int),
            ));
        }
    }
}

/// The feature names to display, in the order of the feature map, with
/// the `"default"` entry left out.
pub fn feature_names(fs: &Vec<Feature>) -> (r: Vec<String>)
    ensures
        r.deep_view() == spec_feature_names(fs@),
{
    let mut r: Vec<String> = Vec::new();
    collect_feature_names(&mut r, fs, 0);
    proof {
        assert(fs@.skip(0) =~= fs@);
        assert(r.deep_view() =~= spec_feature_names(fs@));
    }
    r
}

fn default_features_from(fs: &Vec<Feature>, from: usize) -> (r: Vec<String>)
    requires
        from <= fs@.len(),
    ensures
        r.deep_view() == spec_default_features(fs@.skip(from as int)),
    decreases fs@.len() - from,
{
    if from < fs.len() {
        proof {
            assert(fs@.skip(from as int).drop_first() =~= fs@.skip(from as int + 1));
        }
        if is_default_name(&fs[from].name) {
            let r = clone_strings(&fs[from].enables);
            proof {
                assert(fs@.skip(from as int)[0] == fs@[from as int]);
                assert(r.deep_view() =~= spec_default_features(fs@.skip(from as int)));
            }
            r
        } else {
            let r = default_features_from(fs, from + 1);
            proof {
                assert(fs@.skip(from as int)[0] == fs@[from as int]);
            }
            r
        }
    } else {
        let r: Vec<String> = Vec::new();
        proof {
            assert(fs@.skip(from as int).len() == 0);
            assert(r.deep_view() =~= spec_default_features(fs@.skip(from as int)));
        }
        r
    }
}

/// The `Default Features` list: what the feature map maps `"default"`
/// to, or an empty list when no such entry exists.
pub fn default_features(fs: &Vec<Feature>) -> (r: Vec<String>)
    ensures
        r.deep_view() == spec_default_features(fs@),
{
    let r = default_features_from(fs, 0);
    proof {
        assert(fs@.skip(0) =~= fs@);
    }
    r
}

/// The displayed feature-name list never contains the reserved name
/// `"default"`.
pub proof fn lemma_feature_names_exclude_default(fs: Seq<Feature>)
    ensures
        forall|i: int|
            0 <= i < spec_feature_names(fs).len() ==> spec_feature_names(fs)[i] != default_key(),
    decreases fs.len(),
{
    if fs.len() == 0 {
    } else {
        lemma_feature_names_exclude_default(fs.drop_first());
        let rest = spec_feature_names(fs.drop_first());
        if fs[0].name@ != default_key() {
            assert(spec_feature_names(fs) == seq![fs[0].name@] + rest);
            assert forall|i: int|
                0 <= i < spec_feature_names(fs).len() implies spec_feature_names(fs)[i]
                != default_key() by {
                if i > 0 {
                    assert(spec_feature_names(fs)[i] == rest[i - 1]);
                }
            }
        }
    }
}

/// When no feature is named `"default"`, the default-features list is
/// empty.
pub proof fn lemma_default_features_absent(fs: Seq<Feature>)
    requires
        forall|i: int| 0 <= i < fs.len() ==> fs[i].name@ != default_key(),
    ensures
        spec_default_features(fs) == Seq::<Seq<char>>::empty(),
    decreases fs.len(),
{
    if fs.len() == 0 {
    } else {
        assert(fs[0].name@ != default_key());
        assert(forall|i: int|
            0 <= i < fs.drop_first().len() ==> fs.drop_first()[i].name@ != default_key());
        lemma_default_features_absent(fs.drop_first());
    }
}

/// The default-features list is exactly the `enables` list of the first
/// feature named `"default"`.
pub proof fn lemma_default_features_found(fs: Seq<Feature>, i: int)
    requires
        0 <= i < fs.len(),
        fs[i].name@ == default_key(),
        forall|j: int| 0 <= j < i ==> fs[j].name@ != default_key(),
    ensures
        spec_default_features(fs) == fs[i].enables.deep_view(),
    decreases fs.len(),
{
    if i == 0 {
    } else {
        assert(fs[0].name@ != default_key());
        assert(forall|j: int| 0 <= j < i - 1 ==> fs.drop_first()[j].name@ != default_key());
        assert(fs.drop_first()[i - 1] == fs[i]);
        lemma_default_features_found(fs.drop_first(), i - 1);
    }
}

} // verus!
