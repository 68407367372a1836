//! The renderer: every line the two operations write, as a function of
//! the data returned by the registry and the chosen style.

use vstd::prelude::*;
use vstd::string::StringExecFns;

use crate::detail::{
    default_features, feature_names, spec_default_features, spec_feature_names, PackageDetail,
};
use crate::style::{paint, spec_paint, Color, Style};
use crate::text::{decimal_string, list_line, spec_decimal, spec_list_line};

verus! {

/// The `Crate-Name` line: the package name, green when colored.
pub open spec fn spec_name_line(name: Seq<char>, st: Style) -> Seq<char> {
    "Crate-Name: "@ + spec_paint(st, Color::Green, name)
}

/// The `License(s)` line: the license in blue when present, the literal
/// `None` in red otherwise.
pub open spec fn spec_license_line(license: Option<Seq<char>>, st: Style) -> Seq<char> {
    match license {
        Option::Some(l) => "License(s): "@ + spec_paint(st, Color::Blue, l),
        Option::None => "License(s): "@ + spec_paint(st, Color::Red, "None"@),
    }
}

/// A labeled URL line in blue, present exactly when the URL is; an
/// absent URL contributes no line at all.
pub open spec fn spec_url_lines(label: Seq<char>, url: Option<Seq<char>>, st: Style) -> Seq<
    Seq<char>,
> {
    match url {
        Option::Some(u) => seq![label + spec_paint(st, Color::Blue, u)],
        Option::None => Seq::empty(),
    }
}

/// The `Downloads` line: the count in decimal, yellow when colored.
pub open spec fn spec_downloads_line(n: nat, st: Style) -> Seq<char> {
    "Downloads: "@ + spec_paint(st, Color::Yellow, spec_decimal(n))
}

/// The final unlabeled description line, present exactly when the
/// description is.
pub open spec fn spec_description_lines(description: Option<Seq<char>>) -> Seq<Seq<char>> {
    match description {
        Option::Some(t) => seq![t],
        Option::None => Seq::empty(),
    }
}

/// Every line the `info` operation prints for a package, in order:
/// name, license, the optional URL lines, downloads, the five bracketed
/// lists, and the optional description.
pub open spec fn spec_info_lines(d: PackageDetail, st: Style) -> Seq<Seq<char>> {
    seq![spec_name_line(d.name@, st), spec_license_line(d.license.deep_view(), st)]
        + spec_url_lines("Documentation: "@, d.documentation.deep_view(), st) + spec_url_lines(
        "Homepage: "@,
        d.homepage.deep_view(),
        st,
    ) + spec_url_lines("Repository: "@, d.repository.deep_view(), st) + seq![
        spec_downloads_line(d.downloads as nat, st),
        spec_list_line("Versions"@, d.versions.deep_view(), st, Color::Yellow),
        spec_list_line("Keywords"@, d.keywords.deep_view(), st, Color::Blue),
        spec_list_line("Categories"@, d.categories.deep_view(), st, Color::Blue),
        spec_list_line("Features"@, spec_feature_names(d.features@), st, Color::Blue),
        spec_list_line("Default Features"@, spec_default_features(d.features@), st, Color::Blue),
    ] + spec_description_lines(d.description.deep_view())
}

fn name_line(name: &String, st: Style) -> (r: String)
    ensures
        r@ == spec_name_line(name@, st),
{
    let mut r = "Crate-Name: ".to_owned();
    let p = paint(name.as_str(), Color::Green, st);
    r.append(p.as_str());
    r
}

fn license_line(license: &Option<String>, st: Style) -> (r: String)
    ensures
        r@ == spec_license_line(license.deep_view(), st),
{
    let mut r = "License(s): ".to_owned();
    match license {
        Option::Some(l) => {
            let p = paint(l.as_str(), Color::Blue, st);
            r.append(p.as_str());
        },
        Option::None => {
            let p = paint("None", Color::Red, st);
            r.append(p.as_str());
        },
    }
    r
}

fn push_url_line(lines: &mut Vec<String>, label: &str, url: &Option<String>, st: Style)
    ensures
        final(lines).deep_view() == old(lines).deep_view() + spec_url_lines(
            label@,
            url.deep_view(),
            st,
        ),
{
    match url {
        Option::Some(u) => {
            let mut line = label.to_owned();
            let p = paint(u.as_str(), Color::Blue, st);
            line.append(p.as_str());
            lines.push(line);
            proof {
                assert(final(lines).deep_view() =~= old(lines).deep_view() + spec_url_lines(
                    label@,
                    url.deep_view(),
                    st,
                ));
            }
        },
        Option::None => {
            proof {
                assert(final(lines).deep_view() =~= old(lines).deep_view() + spec_url_lines(
                    label@,
                    url.deep_view(),
                    st,
                ));
            }
        },
    }
}

fn downloads_line(n: u64, st: Style) -> (r: String)
    ensures
        r@ == spec_downloads_line(n as nat, st),
{
    let mut r = "Downloads: ".to_owned();
    let count = decimal_string(n);
    let p = paint(count.as_str(), Color::Yellow, st);
    r.append(p.as_str());
    r
}

/// Every line the `info` operation prints for the given package detail,
/// in the fixed order, under the given style.
pub fn crate_info_lines(d: &PackageDetail, st: Style) -> (lines: Vec<String>)
    ensures
        lines.deep_view() == spec_info_lines(*d, st),
{
    let mut lines: Vec<String> = Vec::new();
    lines.push(name_line(&d.name, st));
    lines.push(license_line(&d.license, st));
    proof {
        assert(lines.deep_view() =~= seq![
            spec_name_line(d.name@, st),
            spec_license_line(d.license.deep_view(), st),
        ]);
    }
    push_url_line(&mut lines, "Documentation: ", &d.documentation, st);
    push_url_line(&mut lines, "Homepage: ", &d.homepage, st);
    push_url_line(&mut lines, "Repository: ", &d.repository, st);
    let ghost with_urls = lines.deep_view();
    lines.push(downloads_line(d.downloads, st));
    lines.push(list_line("Versions", &d.versions, Color::Yellow, st));
    lines.push(list_line("Keywords", &d.keywords, Color::Blue, st));
    lines.push(list_line("Categories", &d.categories, Color::Blue, st));
    let names = feature_names(&d.features);
    lines.push(list_line("Features", &names, Color::Blue, st));
    let defaults = default_features(&d.features);
    lines.push(list_line("Default Features", &defaults, Color::Blue, st));
    proof {
        assert(lines.deep_view() =~= with_urls + seq![
            spec_downloads_line(d.downloads as nat, st),
            spec_list_line("Versions"@, d.versions.deep_view(), st, Color::Yellow),
            spec_list_line("Keywords"@, d.keywords.deep_view(), st, Color::Blue),
            spec_list_line("Categories"@, d.categories.deep_view(), st, Color::Blue),
            spec_list_line("Features"@, spec_feature_names(d.features@), st, Color::Blue),
            spec_list_line(
                "Default Features"@,
                spec_default_features(d.features@),
                st,
                Color::Blue,
            ),
        ]);
    }
    match &d.description {
        Option::Some(t) => {
            lines.push(t.clone());
        },
        Option::None => {},
    }
    proof {
        assert(lines.deep_view() =~= spec_info_lines(*d, st));
    }
    lines
}

/// The lines `search` prints on success: one line per package, holding
/// the name alone, green when colored.
pub open spec fn spec_search_lines(names: Seq<Seq<char>>, st: Style) -> Seq<Seq<char>> {
    Seq::new(names.len(), |i: int| spec_paint(st, Color::Green, names[i]))
}

/// One line per package name, the name styled green under the given
/// style.
pub fn search_lines(names: &Vec<String>, st: Style) -> (r: Vec<String>)
    ensures
        r.deep_view() == spec_search_lines(names.deep_view(), st),
{
    let mut r: Vec<String> = Vec::new();
    let mut i: usize = 0;
    while i < names.len()
        invariant
            i <= names@.len(),
            r.deep_view() == spec_search_lines(names.deep_view(), st).take(i as int),
        decreases names@.len() - i,
    {
        let p = paint(names[i].as_str(), Color::Green, st);
        let ghost prev = r.deep_view();
        r.push(p);
        proof {
            assert(r.deep_view() =~= prev.push(
                spec_paint(st, Color::Green, names.deep_view()[i as int]),
            ));
            assert(r.deep_view() =~= spec_search_lines(names.deep_view(), st).take(i as int + 1));
        }
        i = i + 1;
    }
    proof {
        assert(r.deep_view() =~= spec_search_lines(names.deep_view(), st));
    }
    r
}

/// What one operation writes: the lines for standard output and the
/// lines for standard error.
#[derive(Debug)]
pub struct Rendered {
    pub out: Vec<String>,
    pub err: Vec<String>,
}

/// Render the outcome of a search. On success, standard output carries
/// one styled name per returned package and standard error nothing; on
/// a registry error, standard output carries nothing and standard error
/// exactly the error's message.
pub fn render_search(response: Result<Vec<String>, String>, st: Style) -> (r: Rendered)
    ensures
        response matches Ok(names) ==> r.out.deep_view() == spec_search_lines(
            names.deep_view(),
            st,
        ) && r.err@.len() == 0,
        response matches Err(e) ==> r.out@.len() == 0 && r.err.deep_view() == seq![e@],
{
    match response {
        Result::Ok(names) => Rendered { out: search_lines(&names, st), err: Vec::new() },
        Result::Err(e) => {
            let mut err: Vec<String> = Vec::new();
            let ghost msg = e@;
            err.push(e);
            proof {
                assert(err.deep_view() =~= seq![msg]);
            }
            Rendered { out: Vec::new(), err }
        },
    }
}

/// Render the outcome of an info query. On success, standard output
/// carries the full fixed sequence of labeled lines and standard error
/// nothing; on a registry error, standard output carries nothing and
/// standard error exactly the error's message.
pub fn render_crate_info(response: Result<PackageDetail, String>, st: Style) -> (r: Rendered)
    ensures
        response matches Ok(d) ==> r.out.deep_view() == spec_info_lines(d, st) && r.err@.len()
            == 0,
        response matches Err(e) ==> r.out@.len() == 0 && r.err.deep_view() == seq![e@],
{
    match response {
        Result::Ok(d) => Rendered { out: crate_info_lines(&d, st), err: Vec::new() },
        Result::Err(e) => {
            let mut err: Vec<String> = Vec::new();
            let ghost msg = e@;
            err.push(e);
            proof {
                assert(err.deep_view() =~= seq![msg]);
            }
            Rendered { out: Vec::new(), err }
        },
    }
}

/// The `info` output always holds eight fixed lines, plus one line for
/// each of the four optional fields that is present; an absent optional
/// field contributes no line.
pub proof fn lemma_info_line_count(d: PackageDetail, st: Style)
    ensures
        spec_info_lines(d, st).len() == 8 + (if d.documentation is Some {
            1int
        } else {
            0int
        }) + (if d.homepage is Some {
            1int
        } else {
            0int
        }) + (if d.repository is Some {
            1int
        } else {
            0int
        }) + (if d.description is Some {
            1int
        } else {
            0int
        }),
{
    match d.documentation {
        Option::Some(_) => {
            assert(spec_url_lines("Documentation: "@, d.documentation.deep_view(), st).len() == 1);
        },
        Option::None => {
            assert(spec_url_lines("Documentation: "@, d.documentation.deep_view(), st).len() == 0);
        },
    }
    match d.homepage {
        Option::Some(_) => {
            assert(spec_url_lines("Homepage: "@, d.homepage.deep_view(), st).len() == 1);
        },
        Option::None => {
            assert(spec_url_lines("Homepage: "@, d.homepage.deep_view(), st).len() == 0);
        },
    }
    match d.repository {
        Option::Some(_) => {
            assert(spec_url_lines("Repository: "@, d.repository.deep_view(), st).len() == 1);
        },
        Option::None => {
            assert(spec_url_lines("Repository: "@, d.repository.deep_view(), st).len() == 0);
        },
    }
    match d.description {
        Option::Some(_) => {
            assert(spec_description_lines(d.description.deep_view()).len() == 1);
        },
        Option::None => {
            assert(spec_description_lines(d.description.deep_view()).len() == 0);
        },
    }
}

} // verus!
