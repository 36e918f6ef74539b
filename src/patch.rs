//! The shader-source compatibility pass of the command-buffer-style backend: a fixed
//! rewrite that removes half-precision syntax, then an ordered list of caller-supplied
//! pattern/replacement patches.
use regex::Regex;
use vstd::prelude::*;

verus! {

#[verifier::external_type_specification]
#[verifier::external_body]
pub struct ExRegex(Regex);

/// `s` with each match of `from` replaced by `to`, matches taken from the left and
/// never overlapping.
pub open spec fn replace_lit(s: Seq<char>, from: Seq<char>, to: Seq<char>) -> Seq<char>
    decreases s.len(),
{
    if from.len() == 0 || s.len() < from.len() {
        s
    } else if s.take(from.len() as int) == from {
        to + replace_lit(s.skip(from.len() as int), from, to)
    } else {
        seq![s[0]] + replace_lit(s.skip(1), from, to)
    }
}

/// Relies on `str::replace`: every match of `from` is replaced by `to`; matches are
/// found from the left and do not overlap, as `str::match_indices` documents.
#[verifier::external_body]
fn replace_str(s: &str, from: &str, to: &str) -> (r: String)
    requires
        from@.len() > 0,
    ensures
        r@ == replace_lit(s@, from@, to@),
{
    s.replace(from, to)
}

/// What replacing every match of the regular expression `pattern` in `text` by
/// `replacement` gives, with the replacement's capture-group references expanded.
pub uninterp spec fn regex_replaced(pattern: Seq<char>, replacement: Seq<char>, text: Seq<char>) -> Seq<char>;

/// Whether `pattern` is a regular expression that compiles within the default limits.
pub uninterp spec fn regex_compiles(pattern: Seq<char>) -> bool;

/// Relies on `Regex::new`: compiles `pattern`, or fails where it is not a valid
/// regular expression; which of the two depends on the pattern alone.
#[verifier::external_body]
fn compile_regex(pattern: &str) -> (r: Option<Regex>)
    ensures
        r is Some <==> regex_compiles(pattern@),
{
    Regex::new(pattern).ok()
}

/// Relies on `Regex::replace_all`: the patch's regex was compiled from its pattern by
/// `Regex::new`, so the result depends on the pattern, the replacement and the text.
#[verifier::external_body]
fn regex_replace_all(patch: &TextPatch, text: &str) -> (r: String)
    ensures
        r@ == regex_replaced(patch.pattern@, patch.replacement@, text@),
{
    patch.regex.replace_all(text, patch.replacement.as_str()).into_owned()
}

/// A pattern/replacement pair applied to shader source before module creation.
pub struct TextPatch {
    regex: Regex,
    pattern: String,
    replacement: String,
}

impl TextPatch {
    /// The pattern and the replacement.
    pub closed spec fn parts(&self) -> (Seq<char>, Seq<char>) {
        (self.pattern@, self.replacement@)
    }

    /// A patch that replaces each match of the regular expression `pattern` by
    /// `replacement`; `None` where `pattern` does not compile.
    pub fn new(pattern: &str, replacement: &str) -> (r: Option<TextPatch>)
        ensures
            r is Some <==> regex_compiles(pattern@),
            r matches Some(p) ==> p.parts() == (pattern@, replacement@),
    {
        match compile_regex(pattern) {
            Some(regex) => Some(
                TextPatch { regex, pattern: pattern.to_owned(), replacement: replacement.to_owned() },
            ),
            None => None,
        }
    }

    /// `text` with the patch applied.
    pub fn apply(&self, text: &str) -> (r: String)
        ensures
            r@ == regex_replaced(self.parts().0, self.parts().1, text@),
    {
        regex_replace_all(self, text)
    }
}

/// The fixed part of the rewrite: half-precision enabling directives are removed, then
/// half-precision types become full-precision ones.
pub open spec fn half_to_full(s: Seq<char>) -> Seq<char> {
    replace_lit(replace_lit(s, "enable f16;"@, Seq::empty()), "f16"@, "f32"@)
}

/// `s` with each patch of `patches` applied in list order.
pub open spec fn apply_patches(patches: Seq<(Seq<char>, Seq<char>)>, s: Seq<char>) -> Seq<char>
    decreases patches.len(),
{
    if patches.len() == 0 {
        s
    } else {
        let (pattern, replacement) = patches.last();
        regex_replaced(pattern, replacement, apply_patches(patches.drop_last(), s))
    }
}

/// The whole compatibility pass.
pub open spec fn patched_source(patches: Seq<(Seq<char>, Seq<char>)>, s: Seq<char>) -> Seq<char> {
    apply_patches(patches, half_to_full(s))
}

/// The ordered list of text patches that a backend applies to shader source.
pub struct SourcePatches {
    patches: Vec<TextPatch>,
}

impl View for SourcePatches {
    type V = Seq<(Seq<char>, Seq<char>)>;

    closed spec fn view(&self) -> Seq<(Seq<char>, Seq<char>)> {
        self.patches@.map_values(|p: TextPatch| p.parts())
    }
}

impl SourcePatches {
    /// No patch: only the fixed rewrite applies.
    pub fn new() -> (r: SourcePatches)
        ensures
            r@ == Seq::<(Seq<char>, Seq<char>)>::empty(),
    {
        let r = SourcePatches { patches: Vec::new() };
        assert(r@ =~= Seq::<(Seq<char>, Seq<char>)>::empty());
        r
    }

    /// Appends a patch, applied after all earlier ones.
    pub fn push(&mut self, patch: TextPatch)
        ensures
            final(self)@ == old(self)@.push(patch.parts()),
    {
        self.patches.push(patch);
        assert(self@ =~= old(self)@.push(patch.parts()));
    }

    /// The number of patches.
    pub fn len(&self) -> (r: usize)
        ensures
            r == self@.len(),
    {
        self.patches.len()
    }

    /// Applies the compatibility pass to `source`: the fixed rewrite, then each patch in
    /// list order.
    pub fn apply(&self, source: &str) -> (r: String)
        ensures
            r@ == patched_source(self@, source@),
    {
        proof {
            reveal_strlit("enable f16;");
            reveal_strlit("f16");
            reveal_strlit("");
            assert(""@ =~= Seq::<char>::empty());
        }
        let without_enable = replace_str(source, "enable f16;", "");
        let mut text = replace_str(without_enable.as_str(), "f16", "f32");
        let mut i: usize = 0;
        assert(self@.take(0) =~= Seq::<(Seq<char>, Seq<char>)>::empty());
        while i < self.patches.len()
            invariant
                i <= self@.len(),
                text@ == apply_patches(self@.take(i as int), half_to_full(source@)),
            decreases self@.len() - i,
        {
            assert(self@.take(i as int + 1).drop_last() =~= self@.take(i as int));
            text = self.patches[i].apply(text.as_str());
            i = i + 1;
        }
        assert(self@.take(self@.len() as int) =~= self@);
        text
    }
}

} // verus!
