use vstd::prelude::*;

verus! {

/// A tri-state build toggle. `Unspecified` leaves the choice to the
/// toolchain's own default and never turns into a flag.
#[derive(Clone, Copy, Debug, PartialEq, Eq, Structural)]
pub enum Toggle {
    Enabled,
    Disabled,
    Unspecified,
}

/// The configuration options the toolchain recognises.
#[derive(Clone, Copy, Debug, PartialEq, Eq, Structural)]
pub enum OptionKind {
    /// Build a statically linked artifact.
    Static,
    /// Build a dynamically linked artifact.
    Shared,
    /// Build the accompanying documentation.
    Doc,
}

/// The toolchain's word for an option.
pub open spec fn option_name(k: OptionKind) -> Seq<char> {
    match k {
        OptionKind::Static => "static"@,
        OptionKind::Shared => "shared"@,
        OptionKind::Doc => "doc"@,
    }
}

pub open spec fn enable_flag(name: Seq<char>) -> Seq<char> {
    "--enable-"@ + name
}

pub open spec fn disable_flag(name: Seq<char>) -> Seq<char> {
    "--disable-"@ + name
}

pub open spec fn prefix_flag(path: Seq<char>) -> Seq<char> {
    "--prefix="@ + path
}

/// The flags one toggle contributes: none when unspecified.
pub open spec fn toggle_flags(name: Seq<char>, t: Toggle) -> Seq<Seq<char>> {
    match t {
        Toggle::Enabled => seq![enable_flag(name)],
        Toggle::Disabled => seq![disable_flag(name)],
        Toggle::Unspecified => Seq::empty(),
    }
}

/// How many times `x` occurs in `s`.
pub open spec fn occurrences(s: Seq<Seq<char>>, x: Seq<char>) -> nat
    decreases s.len(),
{
    if s.len() == 0 {
        0
    } else {
        occurrences(s.drop_last(), x) + if s.last() == x { 1nat } else { 0nat }
    }
}

/// The options of one build, with each toggle in declaration order.
#[derive(Clone, Copy, Debug, PartialEq, Eq, Structural)]
pub struct BuildOptions {
    pub static_lib: Toggle,
    pub shared: Toggle,
    pub doc: Toggle,
}

impl BuildOptions {
    pub open spec fn toggle(&self, k: OptionKind) -> Toggle {
        match k {
            OptionKind::Static => self.static_lib,
            OptionKind::Shared => self.shared,
            OptionKind::Doc => self.doc,
        }
    }

    /// The configure step's arguments: one flag per specified toggle, in
    /// declaration order, then the installation prefix.
    pub open spec fn configure_args_spec(&self, prefix: Seq<char>) -> Seq<Seq<char>> {
        toggle_flags(option_name(OptionKind::Static), self.static_lib)
            + toggle_flags(option_name(OptionKind::Shared), self.shared)
            + toggle_flags(option_name(OptionKind::Doc), self.doc)
            + seq![prefix_flag(prefix)]
    }

    /// Options that leave every choice to the toolchain.
    pub fn new() -> (r: BuildOptions)
        ensures
            r.static_lib == Toggle::Unspecified,
            r.shared == Toggle::Unspecified,
            r.doc == Toggle::Unspecified,
    {
        BuildOptions {
            static_lib: Toggle::Unspecified,
            shared: Toggle::Unspecified,
            doc: Toggle::Unspecified,
        }
    }

    /// The options this project is built with: a static library only, and
    /// no documentation.
    pub fn static_only() -> (r: BuildOptions)
        ensures
            r.static_lib == Toggle::Enabled,
            r.shared == Toggle::Disabled,
            r.doc == Toggle::Disabled,
    {
        BuildOptions { static_lib: Toggle::Enabled, shared: Toggle::Disabled, doc: Toggle::Disabled }
    }

    /// Sets one toggle, leaving the others as they were.
    pub fn set(&mut self, k: OptionKind, t: Toggle)
        ensures
            final(self).toggle(k) == t,
            forall|j: OptionKind| j != k ==> final(self).toggle(j) == old(self).toggle(j),
    {
        match k {
            OptionKind::Static => self.static_lib = t,
            OptionKind::Shared => self.shared = t,
            OptionKind::Doc => self.doc = t,
        }
    }

    /// The argument list of the configure step for installation under
    /// `prefix`.
    pub fn configure_args(&self, prefix: &str) -> (r: Vec<String>)
        ensures
            r@.map_values(|s: String| s@) == self.configure_args_spec(prefix@),
    {
        let mut args: Vec<String> = Vec::new();
        push_toggle(&mut args, "static", self.static_lib);
        push_toggle(&mut args, "shared", self.shared);
        push_toggle(&mut args, "doc", self.doc);
        proof {
            reveal_strlit("--prefix=");
        }
        args.push("--prefix=".to_owned().concat(prefix));
        proof {
            reveal_strlit("static");
            reveal_strlit("shared");
            reveal_strlit("doc");
            assert(args@.map_values(|s: String| s@) =~= self.configure_args_spec(prefix@));
        }
        args
    }
}

fn push_toggle(args: &mut Vec<String>, name: &str, t: Toggle)
    ensures
        final(args)@.map_values(|s: String| s@) == old(args)@.map_values(|s: String| s@)
            + toggle_flags(name@, t),
{
    match t {
        Toggle::Enabled => {
            proof {
                reveal_strlit("--enable-");
            }
            args.push("--enable-".to_owned().concat(name));
        },
        Toggle::Disabled => {
            proof {
                reveal_strlit("--disable-");
            }
            args.push("--disable-".to_owned().concat(name));
        },
        Toggle::Unspecified => {},
    }
    proof {
        assert(args@.map_values(|s: String| s@) =~= old(args)@.map_values(|s: String| s@)
            + toggle_flags(name@, t));
    }
}

proof fn lemma_occurrences_concat(a: Seq<Seq<char>>, b: Seq<Seq<char>>, x: Seq<char>)
    ensures
        occurrences(a + b, x) == occurrences(a, x) + occurrences(b, x),
    decreases b.len(),
{
    if b.len() > 0 {
        lemma_occurrences_concat(a, b.drop_last(), x);
        assert((a + b).drop_last() =~= a + b.drop_last());
    } else {
        assert(a + b =~= a);
    }
}

proof fn lemma_flags_distinct(n: Seq<char>, m: Seq<char>, p: Seq<char>)
    ensures
        enable_flag(n) == enable_flag(m) <==> n == m,
        disable_flag(n) == disable_flag(m) <==> n == m,
        enable_flag(n) != disable_flag(m),
        prefix_flag(p) != enable_flag(m),
        prefix_flag(p) != disable_flag(m),
{
    reveal_strlit("--enable-");
    reveal_strlit("--disable-");
    reveal_strlit("--prefix=");
    if enable_flag(n) == enable_flag(m) {
        assert(n =~= enable_flag(n).subrange(9, enable_flag(n).len() as int));
        assert(m =~= enable_flag(m).subrange(9, enable_flag(m).len() as int));
    }
    if disable_flag(n) == disable_flag(m) {
        assert(n =~= disable_flag(n).subrange(10, disable_flag(n).len() as int));
        assert(m =~= disable_flag(m).subrange(10, disable_flag(m).len() as int));
    }
    assert(enable_flag(n)[2] != disable_flag(m)[2]);
    assert(prefix_flag(p)[2] != enable_flag(m)[2]);
    assert(prefix_flag(p)[2] != disable_flag(m)[2]);
}

proof fn lemma_toggle_occurrences(n: Seq<char>, t: Toggle, m: Seq<char>)
    ensures
        occurrences(toggle_flags(n, t), enable_flag(m)) == if n == m && t == Toggle::Enabled {
            1nat
        } else {
            0nat
        },
        occurrences(toggle_flags(n, t), disable_flag(m)) == if n == m && t == Toggle::Disabled {
            1nat
        } else {
            0nat
        },
{
    lemma_flags_distinct(n, m, Seq::empty());
    lemma_flags_distinct(m, n, Seq::empty());
    let f = toggle_flags(n, t);
    reveal_with_fuel(occurrences, 2);
    if f.len() > 0 {
        assert(f.drop_last() =~= Seq::<Seq<char>>::empty());
    }
}

proof fn lemma_option_names_distinct(j: OptionKind, k: OptionKind)
    ensures
        option_name(j) == option_name(k) <==> j == k,
{
    reveal_strlit("static");
    reveal_strlit("shared");
    reveal_strlit("doc");
    if j != k && option_name(j).len() == option_name(k).len() {
        assert(option_name(j)[1] != option_name(k)[1]);
    }
}

/// The configure step's arguments hold `--enable-<opt>` once exactly when
/// the option is enabled and `--disable-<opt>` once exactly when it is
/// disabled; an unspecified option contributes neither.
pub proof fn lemma_configure_flag_counts(o: BuildOptions, prefix: Seq<char>, k: OptionKind)
    ensures
        occurrences(o.configure_args_spec(prefix), enable_flag(option_name(k)))
            == if o.toggle(k) == Toggle::Enabled { 1nat } else { 0nat },
        occurrences(o.configure_args_spec(prefix), disable_flag(option_name(k)))
            == if o.toggle(k) == Toggle::Disabled { 1nat } else { 0nat },
{
    let m = option_name(k);
    let a = toggle_flags(option_name(OptionKind::Static), o.static_lib);
    let b = toggle_flags(option_name(OptionKind::Shared), o.shared);
    let c = toggle_flags(option_name(OptionKind::Doc), o.doc);
    let d = seq![prefix_flag(prefix)];
    lemma_option_names_distinct(OptionKind::Static, k);
    lemma_option_names_distinct(OptionKind::Shared, k);
    lemma_option_names_distinct(OptionKind::Doc, k);
    lemma_toggle_occurrences(option_name(OptionKind::Static), o.static_lib, m);
    lemma_toggle_occurrences(option_name(OptionKind::Shared), o.shared, m);
    lemma_toggle_occurrences(option_name(OptionKind::Doc), o.doc, m);
    lemma_flags_distinct(m, m, prefix);
    assert(d.drop_last() =~= Seq::<Seq<char>>::empty());
    reveal_with_fuel(occurrences, 2);
    lemma_occurrences_concat(a, b, enable_flag(m));
    lemma_occurrences_concat(a + b, c, enable_flag(m));
    lemma_occurrences_concat(a + b + c, d, enable_flag(m));
    lemma_occurrences_concat(a, b, disable_flag(m));
    lemma_occurrences_concat(a + b, c, disable_flag(m));
    lemma_occurrences_concat(a + b + c, d, disable_flag(m));
}

} // verus!
