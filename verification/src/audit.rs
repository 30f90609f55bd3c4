//! The auditor: badges, score, and the missing / forbidden lists derived
//! from a repository's top-level file listing.

use vstd::prelude::*;
use crate::pattern::{
    contains_ext, contains_name, exact_pattern, ext_pattern, has_file, matches_pattern,
    pattern_ext,
};
use crate::path_name::{repo_name, repo_name_of};

verus! {

/// The four independent compliance badges.
#[derive(Clone, Copy, Debug, PartialEq, Eq, Structural)]
pub struct Badges {
    /// A preferred-language marker is present and no Python source is.
    pub dependable: bool,
    /// A Nickel config and a Justfile are present and no YAML is.
    pub secure: bool,
    /// AsciiDoc documentation and the VoID metadata file are present.
    pub interoperable: bool,
    /// A license and a contribution guide are present.
    pub governed: bool,
}

/// The `dependable` badge: a Rust, Ada or Elixir marker is present and no
/// Python source file is.
pub open spec fn dependable_of(es: Seq<Seq<char>>) -> bool {
    (contains_name(es, "Cargo.toml"@) || contains_ext(es, "adb"@) || contains_ext(es, "ads"@)
        || contains_name(es, "mix.exs"@)) && !contains_ext(es, "py"@)
}

/// The `secure` badge: a Nickel config and a Justfile (either case) are
/// present and no YAML file is.
pub open spec fn secure_of(es: Seq<Seq<char>>) -> bool {
    contains_ext(es, "ncl"@) && (contains_name(es, "Justfile"@) || contains_name(
        es,
        "justfile"@,
    )) && !(contains_ext(es, "yaml"@) || contains_ext(es, "yml"@))
}

/// The `interoperable` badge: AsciiDoc documentation and the VoID metadata
/// file are both present.
pub open spec fn interoperable_of(es: Seq<Seq<char>>) -> bool {
    contains_ext(es, "adoc"@) && contains_name(es, "void.ttl"@)
}

/// The `governed` badge: a license and a contribution guide are both present.
pub open spec fn governed_of(es: Seq<Seq<char>>) -> bool {
    contains_name(es, "LICENSE"@) && contains_name(es, "CONTRIBUTING.md"@)
}

/// The badge set a listing earns.
pub open spec fn badges_of(es: Seq<Seq<char>>) -> Badges {
    Badges {
        dependable: dependable_of(es),
        secure: secure_of(es),
        interoperable: interoperable_of(es),
        governed: governed_of(es),
    }
}

/// How many of the four badges are earned.
pub open spec fn badge_count(b: Badges) -> int {
    (if b.dependable {
        1int
    } else {
        0int
    }) + (if b.secure {
        1int
    } else {
        0int
    }) + (if b.interoperable {
        1int
    } else {
        0int
    }) + (if b.governed {
        1int
    } else {
        0int
    })
}

/// The score a badge set is worth: 25 points per badge.
pub open spec fn score_of(b: Badges) -> int {
    25 * badge_count(b)
}

/// All four badges at once.
pub open spec fn rhodium_of(b: Badges) -> bool {
    b.dependable && b.secure && b.interoperable && b.governed
}

impl Badges {
    /// Whether every badge is earned.
    pub fn is_rhodium(&self) -> (r: bool)
        ensures
            r == rhodium_of(*self),
    {
        self.dependable && self.secure && self.interoperable && self.governed
    }

    /// The glyph string for a badge set: one glyph per earned badge, plus a
    /// gem when all four are earned.
    pub fn to_string(&self) -> (r: String)
        ensures
            r@ == badge_glyphs(*self),
    {
        let mut s = String::new();
        if self.dependable {
            s.append("🛡️ ");
        }
        if self.secure {
            s.append("🔒");
        }
        if self.interoperable {
            s.append("🔗");
        }
        if self.governed {
            s.append("📋");
        }
        if self.is_rhodium() {
            s.append(" 💎");
        }
        s
    }
}

/// The glyph string for a badge set.
pub open spec fn badge_glyphs(b: Badges) -> Seq<char> {
    let s0 = Seq::<char>::empty();
    let s1 = if b.dependable {
        s0 + "🛡️ "@
    } else {
        s0
    };
    let s2 = if b.secure {
        s1 + "🔒"@
    } else {
        s1
    };
    let s3 = if b.interoperable {
        s2 + "🔗"@
    } else {
        s2
    };
    let s4 = if b.governed {
        s3 + "📋"@
    } else {
        s3
    };
    if rhodium_of(b) {
        s4 + " 💎"@
    } else {
        s4
    }
}

/// The score is 25 points per earned badge, and so always one of
/// 0, 25, 50, 75, 100.
pub proof fn lemma_score_formula(b: Badges)
    ensures
        score_of(b) == 25 * badge_count(b),
        score_of(b) == 0 || score_of(b) == 25 || score_of(b) == 50 || score_of(b) == 75
            || score_of(b) == 100,
{
}

/// All four badges are earned exactly when the score is perfect.
pub proof fn lemma_rhodium_iff_perfect(b: Badges)
    ensures
        rhodium_of(b) <==> score_of(b) == 100,
{
}

/// The ordered list of required artifacts a listing lacks, by display name:
/// license, contribution guide, build helper, metadata file, README in the
/// documentation format (when neither the extension nor that exact file is
/// present), and config file.
pub open spec fn missing_of(es: Seq<Seq<char>>) -> Seq<Seq<char>> {
    let m0 = Seq::<Seq<char>>::empty();
    let m1 = if !contains_name(es, "LICENSE"@) {
        m0.push("LICENSE"@)
    } else {
        m0
    };
    let m2 = if !contains_name(es, "CONTRIBUTING.md"@) {
        m1.push("CONTRIBUTING.md"@)
    } else {
        m1
    };
    let m3 = if !(contains_name(es, "Justfile"@) || contains_name(es, "justfile"@)) {
        m2.push("Justfile"@)
    } else {
        m2
    };
    let m4 = if !contains_name(es, "void.ttl"@) {
        m3.push("void.ttl"@)
    } else {
        m3
    };
    let m5 = if !contains_ext(es, "adoc"@) && !contains_name(es, "README.adoc"@) {
        m4.push("README.adoc"@)
    } else {
        m4
    };
    if !contains_ext(es, "ncl"@) {
        m5.push("config.ncl"@)
    } else {
        m5
    }
}

/// The ordered list of forbidden artifacts a listing holds, by display name:
/// Python sources, then YAML files, then the alternate build file.
pub open spec fn forbidden_of(es: Seq<Seq<char>>) -> Seq<Seq<char>> {
    let f0 = Seq::<Seq<char>>::empty();
    let f1 = if contains_ext(es, "py"@) {
        f0.push("*.py (use Rust instead)"@)
    } else {
        f0
    };
    let f2 = if contains_ext(es, "yaml"@) || contains_ext(es, "yml"@) {
        f1.push("*.yaml/*.yml (use Nickel)"@)
    } else {
        f1
    };
    if contains_name(es, "Makefile"@) {
        f2.push("Makefile (use Justfile)"@)
    } else {
        f2
    }
}

/// A Python source file forfeits the `dependable` badge, whatever preferred
/// language markers are also present.
pub proof fn lemma_python_blocks_dependable(es: Seq<Seq<char>>)
    ensures
        contains_ext(es, "py"@) ==> !dependable_of(es),
{
}

/// A YAML file, of either extension, forfeits the `secure` badge, whatever
/// config and build helper are also present.
pub proof fn lemma_yaml_blocks_secure(es: Seq<Seq<char>>)
    ensures
        contains_ext(es, "yaml"@) ==> !secure_of(es),
        contains_ext(es, "yml"@) ==> !secure_of(es),
{
}

proof fn lemma_push_contains(s: Seq<Seq<char>>, x: Seq<char>, y: Seq<char>)
    ensures
        s.push(x).contains(y) <==> s.contains(y) || x == y,
{
    if s.contains(y) {
        let i = choose|i: int| 0 <= i < s.len() && s[i] == y;
        assert(s.push(x)[i] == y);
    }
    if x == y {
        assert(s.push(x)[s.len() as int] == y);
    }
    if s.push(x).contains(y) {
        let i = choose|i: int| 0 <= i < s.push(x).len() && s.push(x)[i] == y;
        if i < s.len() {
            assert(s[i] == y);
        } else {
            assert(s.push(x)[i] == x);
        }
    }
}

/// The missing list names the license exactly when no license file exists,
/// and the README entry exactly when neither the documentation extension nor
/// the exact README file is present.
pub proof fn lemma_missing_membership(es: Seq<Seq<char>>)
    ensures
        missing_of(es).contains("LICENSE"@) <==> !contains_name(es, "LICENSE"@),
        missing_of(es).contains("README.adoc"@) <==> !contains_ext(es, "adoc"@)
            && !contains_name(es, "README.adoc"@),
{
    reveal_strlit("LICENSE");
    reveal_strlit("CONTRIBUTING.md");
    reveal_strlit("Justfile");
    reveal_strlit("void.ttl");
    reveal_strlit("README.adoc");
    reveal_strlit("config.ncl");
    let m0 = Seq::<Seq<char>>::empty();
    let m1 = if !contains_name(es, "LICENSE"@) {
        m0.push("LICENSE"@)
    } else {
        m0
    };
    let m2 = if !contains_name(es, "CONTRIBUTING.md"@) {
        m1.push("CONTRIBUTING.md"@)
    } else {
        m1
    };
    let m3 = if !(contains_name(es, "Justfile"@) || contains_name(es, "justfile"@)) {
        m2.push("Justfile"@)
    } else {
        m2
    };
    let m4 = if !contains_name(es, "void.ttl"@) {
        m3.push("void.ttl"@)
    } else {
        m3
    };
    let m5 = if !contains_ext(es, "adoc"@) && !contains_name(es, "README.adoc"@) {
        m4.push("README.adoc"@)
    } else {
        m4
    };
    let m6 = if !contains_ext(es, "ncl"@) {
        m5.push("config.ncl"@)
    } else {
        m5
    };
    assert(missing_of(es) == m6);
    lemma_push_contains(m0, "LICENSE"@, "LICENSE"@);
    lemma_push_contains(m1, "CONTRIBUTING.md"@, "LICENSE"@);
    lemma_push_contains(m2, "Justfile"@, "LICENSE"@);
    lemma_push_contains(m3, "void.ttl"@, "LICENSE"@);
    lemma_push_contains(m4, "README.adoc"@, "LICENSE"@);
    lemma_push_contains(m5, "config.ncl"@, "LICENSE"@);
    lemma_push_contains(m0, "LICENSE"@, "README.adoc"@);
    lemma_push_contains(m1, "CONTRIBUTING.md"@, "README.adoc"@);
    lemma_push_contains(m2, "Justfile"@, "README.adoc"@);
    lemma_push_contains(m3, "void.ttl"@, "README.adoc"@);
    lemma_push_contains(m4, "README.adoc"@, "README.adoc"@);
    lemma_push_contains(m5, "config.ncl"@, "README.adoc"@);
    // The display names differ pairwise in length, which separates the
    // pushed entries from one another.
    assert("LICENSE"@.len() == 7);
    assert("CONTRIBUTING.md"@.len() == 15);
    assert("Justfile"@.len() == 8);
    assert("void.ttl"@.len() == 8);
    assert("README.adoc"@.len() == 11);
    assert("config.ncl"@.len() == 10);
}

/// The forbidden list holds exactly one entry per triggered condition, in
/// fixed order: the Python entry first, then the YAML entry, then the
/// alternate build file.
pub proof fn lemma_forbidden_shape(es: Seq<Seq<char>>)
    ensures
        forbidden_of(es).len() == (if contains_ext(es, "py"@) {
            1int
        } else {
            0int
        }) + (if contains_ext(es, "yaml"@) || contains_ext(es, "yml"@) {
            1int
        } else {
            0int
        }) + (if contains_name(es, "Makefile"@) {
            1int
        } else {
            0int
        }),
        contains_ext(es, "py"@) ==> forbidden_of(es)[0] == "*.py (use Rust instead)"@,
        (contains_ext(es, "yaml"@) || contains_ext(es, "yml"@)) ==> forbidden_of(es)[
            if contains_ext(es, "py"@) {
                1int
            } else {
                0int
            }
        ] == "*.yaml/*.yml (use Nickel)"@,
        contains_name(es, "Makefile"@) ==> forbidden_of(es)[
            (if contains_ext(es, "py"@) {
                1int
            } else {
                0int
            }) + (if contains_ext(es, "yaml"@) || contains_ext(es, "yml"@) {
                1int
            } else {
                0int
            })
        ] == "Makefile (use Justfile)"@,
{
}

/// The outcome of auditing one repository.
pub struct RepoAudit {
    /// Display name, the last segment of the path.
    pub name: String,
    /// The audited location.
    pub path: String,
    /// 25 points per earned badge.
    pub score: u8,
    /// The four compliance badges.
    pub badges: Badges,
    /// Display names of absent required artifacts, in policy order.
    pub missing: Vec<String>,
    /// Display names of present disallowed artifacts, in policy order.
    pub forbidden: Vec<String>,
}

/// Every pattern the policy uses is well formed, and what it asks of a
/// listing, stated over the plain presence predicates.
proof fn lemma_policy_patterns(es: Seq<Seq<char>>)
    ensures
        exact_pattern("Cargo.toml"@),
        matches_pattern(es, "Cargo.toml"@) == contains_name(es, "Cargo.toml"@),
        exact_pattern("mix.exs"@),
        matches_pattern(es, "mix.exs"@) == contains_name(es, "mix.exs"@),
        exact_pattern("Justfile"@),
        matches_pattern(es, "Justfile"@) == contains_name(es, "Justfile"@),
        exact_pattern("justfile"@),
        matches_pattern(es, "justfile"@) == contains_name(es, "justfile"@),
        exact_pattern("void.ttl"@),
        matches_pattern(es, "void.ttl"@) == contains_name(es, "void.ttl"@),
        exact_pattern("LICENSE"@),
        matches_pattern(es, "LICENSE"@) == contains_name(es, "LICENSE"@),
        exact_pattern("CONTRIBUTING.md"@),
        matches_pattern(es, "CONTRIBUTING.md"@) == contains_name(es, "CONTRIBUTING.md"@),
        exact_pattern("CODE_OF_CONDUCT.md"@),
        matches_pattern(es, "CODE_OF_CONDUCT.md"@) == contains_name(es, "CODE_OF_CONDUCT.md"@),
        exact_pattern("README.adoc"@),
        matches_pattern(es, "README.adoc"@) == contains_name(es, "README.adoc"@),
        exact_pattern("Makefile"@),
        matches_pattern(es, "Makefile"@) == contains_name(es, "Makefile"@),
        ext_pattern("*.adb"@),
        matches_pattern(es, "*.adb"@) == contains_ext(es, "adb"@),
        ext_pattern("*.ads"@),
        matches_pattern(es, "*.ads"@) == contains_ext(es, "ads"@),
        ext_pattern("*.py"@),
        matches_pattern(es, "*.py"@) == contains_ext(es, "py"@),
        ext_pattern("*.ncl"@),
        matches_pattern(es, "*.ncl"@) == contains_ext(es, "ncl"@),
        ext_pattern("*.yaml"@),
        matches_pattern(es, "*.yaml"@) == contains_ext(es, "yaml"@),
        ext_pattern("*.yml"@),
        matches_pattern(es, "*.yml"@) == contains_ext(es, "yml"@),
        ext_pattern("*.adoc"@),
        matches_pattern(es, "*.adoc"@) == contains_ext(es, "adoc"@),
{
    reveal_strlit("Cargo.toml");
    reveal_strlit("mix.exs");
    reveal_strlit("Justfile");
    reveal_strlit("justfile");
    reveal_strlit("void.ttl");
    reveal_strlit("LICENSE");
    reveal_strlit("CONTRIBUTING.md");
    reveal_strlit("CODE_OF_CONDUCT.md");
    reveal_strlit("README.adoc");
    reveal_strlit("Makefile");
    reveal_strlit("*.adb");
    reveal_strlit("adb");
    reveal_strlit("*.ads");
    reveal_strlit("ads");
    reveal_strlit("*.py");
    reveal_strlit("py");
    reveal_strlit("*.ncl");
    reveal_strlit("ncl");
    reveal_strlit("*.yaml");
    reveal_strlit("yaml");
    reveal_strlit("*.yml");
    reveal_strlit("yml");
    reveal_strlit("*.adoc");
    reveal_strlit("adoc");
    assert(pattern_ext("*.adb"@) =~= "adb"@);
    assert(pattern_ext("*.ads"@) =~= "ads"@);
    assert(pattern_ext("*.py"@) =~= "py"@);
    assert(pattern_ext("*.ncl"@) =~= "ncl"@);
    assert(pattern_ext("*.yaml"@) =~= "yaml"@);
    assert(pattern_ext("*.yml"@) =~= "yml"@);
    assert(pattern_ext("*.adoc"@) =~= "adoc"@);
}

/// Audit one repository: derive its display name from `path` and every
/// badge, the score and both artifact lists from `entries`, the names of the
/// directory's immediate children.
#[verifier::rlimit(60)]
pub fn audit_repo(path: &str, entries: &Vec<String>) -> (r: RepoAudit)
    ensures
        r.name@ == repo_name_of(path@),
        r.path@ == path@,
        r.badges == badges_of(entries.deep_view()),
        r.score as int == score_of(badges_of(entries.deep_view())),
        r.missing.deep_view() == missing_of(entries.deep_view()),
        r.forbidden.deep_view() == forbidden_of(entries.deep_view()),
{
    let ghost es = entries.deep_view();
    proof {
        lemma_policy_patterns(es);
    }
    let name = repo_name(path);

    // Preferred languages against the disfavored one.
    let has_rust = has_file(entries, "Cargo.toml");
    let has_ada = has_file(entries, "*.adb") || has_file(entries, "*.ads");
    let has_elixir = has_file(entries, "mix.exs");
    let has_python = has_file(entries, "*.py");
    let dependable = (has_rust || has_ada || has_elixir) && !has_python;

    // Configuration and build practices.
    let has_nickel = has_file(entries, "*.ncl");
    let has_justfile = has_file(entries, "Justfile") || has_file(entries, "justfile");
    let has_yaml = has_file(entries, "*.yaml") || has_file(entries, "*.yml");
    let secure = has_nickel && has_justfile && !has_yaml;

    // Documentation and metadata.
    let has_adoc = has_file(entries, "*.adoc");
    let has_void = has_file(entries, "void.ttl");
    let interoperable = has_adoc && has_void;

    // Governance documents; the code of conduct is detected but reserved,
    // it feeds no badge or list yet.
    let has_license = has_file(entries, "LICENSE");
    let has_contributing = has_file(entries, "CONTRIBUTING.md");
    let _has_coc = has_file(entries, "CODE_OF_CONDUCT.md");
    let governed = has_license && has_contributing;

    let badges = Badges { dependable, secure, interoperable, governed };

    let mut missing: Vec<String> = Vec::new();
    let ghost m = Seq::<Seq<char>>::empty();
    if !has_license {
        missing.push(String::from_str("LICENSE"));
        proof {
            m = m.push("LICENSE"@);
        }
        assert(missing.deep_view() =~= m);
    }
    if !has_contributing {
        missing.push(String::from_str("CONTRIBUTING.md"));
        proof {
            m = m.push("CONTRIBUTING.md"@);
        }
        assert(missing.deep_view() =~= m);
    }
    if !has_justfile {
        missing.push(String::from_str("Justfile"));
        proof {
            m = m.push("Justfile"@);
        }
        assert(missing.deep_view() =~= m);
    }
    if !has_void {
        missing.push(String::from_str("void.ttl"));
        proof {
            m = m.push("void.ttl"@);
        }
        assert(missing.deep_view() =~= m);
    }
    if !has_adoc && !has_file(entries, "README.adoc") {
        missing.push(String::from_str("README.adoc"));
        proof {
            m = m.push("README.adoc"@);
        }
        assert(missing.deep_view() =~= m);
    }
    if !has_nickel {
        missing.push(String::from_str("config.ncl"));
        proof {
            m = m.push("config.ncl"@);
        }
        assert(missing.deep_view() =~= m);
    }
    assert(missing.deep_view() =~= missing_of(es));

    let mut forbidden: Vec<String> = Vec::new();
    let ghost f = Seq::<Seq<char>>::empty();
    if has_python {
        forbidden.push(String::from_str("*.py (use Rust instead)"));
        proof {
            f = f.push("*.py (use Rust instead)"@);
        }
        assert(forbidden.deep_view() =~= f);
    }
    if has_yaml {
        forbidden.push(String::from_str("*.yaml/*.yml (use Nickel)"));
        proof {
            f = f.push("*.yaml/*.yml (use Nickel)"@);
        }
        assert(forbidden.deep_view() =~= f);
    }
    if has_file(entries, "Makefile") {
        forbidden.push(String::from_str("Makefile (use Justfile)"));
        proof {
            f = f.push("Makefile (use Justfile)"@);
        }
        assert(forbidden.deep_view() =~= f);
    }
    assert(forbidden.deep_view() =~= forbidden_of(es));

    let mut earned: u8 = 0;
    if badges.dependable {
        earned = earned + 1;
    }
    if badges.secure {
        earned = earned + 1;
    }
    if badges.interoperable {
        earned = earned + 1;
    }
    if badges.governed {
        earned = earned + 1;
    }
    let score: u8 = 25 * earned;

    RepoAudit { name, path: String::from_str(path), score, badges, missing, forbidden }
}

} // verus!
