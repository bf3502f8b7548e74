//! The user's settings, as the library sees them once they are loaded.

use vstd::prelude::*;

verus! {

/// General behaviour of the application.
#[derive(Clone, Debug)]
pub struct GeneralConfig {
    /// Whether the application starts on login.
    pub autostart: bool,
}

/// Notices the user chose not to see again.
#[derive(Clone, Debug)]
pub struct WarningsConfig {
    /// The notice about limited support on other distributions was dismissed.
    pub dismissed_generic_distro_notice: bool,
}

/// The one-time migrations already applied, by id.
#[derive(Clone, Debug)]
pub struct MigrationsConfig {
    pub applied: Vec<String>,
}

/// All of the user's settings.
#[derive(Clone, Debug)]
pub struct Config {
    pub general: GeneralConfig,
    pub warnings: WarningsConfig,
    pub migrations: MigrationsConfig,
}

/// Whether `a` comes no later than `b` in lexicographic order of characters,
/// a prefix first.
pub open spec fn lex_le(a: Seq<char>, b: Seq<char>) -> bool
    decreases a.len(),
{
    if a.len() == 0 {
        true
    } else if b.len() == 0 {
        false
    } else if a[0] != b[0] {
        (a[0] as u32) < (b[0] as u32)
    } else {
        lex_le(a.drop_first(), b.drop_first())
    }
}

/// Whether the strings of `s` are in lexicographic order.
pub open spec fn sorted_lex(s: Seq<Seq<char>>) -> bool {
    forall|i: int, j: int| 0 <= i < j < s.len() ==> lex_le(#[trigger] s[i], #[trigger] s[j])
}

/// Relies on std's `slice::sort` on `String`s: it permutes the strings into
/// ascending order, and strings order lexicographically by their UTF-8 bytes,
/// which is the order of their characters.
#[verifier::external_body]
fn sort_strings(v: &mut Vec<String>)
    ensures
        final(v).deep_view().to_multiset() == old(v).deep_view().to_multiset(),
        sorted_lex(final(v).deep_view()),
{
    v.sort();
}

impl MigrationsConfig {
    /// The ids of the applied migrations.
    pub open spec fn ids(&self) -> Seq<Seq<char>> {
        self.applied.deep_view()
    }

    /// Whether the migration `id` was applied.
    pub fn is_applied(&self, id: &str) -> (r: bool)
        ensures
            r == self.ids().contains(id@),
    {
        let wanted: String = id.to_owned();
        let mut i: usize = 0;
        while i < self.applied.len()
            invariant
                i <= self.applied@.len(),
                wanted@ == id@,
                forall|j: int| 0 <= j < i ==> self.ids()[j] != id@,
            decreases self.applied@.len() - i,
        {
            if self.applied[i] == wanted {
                assert(self.ids()[i as int] == id@);
                return true;
            }
            i = i + 1;
        }
        false
    }

    /// Records the migration `id` as applied, keeping the ids sorted; an id
    /// already recorded leaves the list as it is.
    pub fn mark_applied(&mut self, id: &str)
        ensures
            old(self).ids().contains(id@) ==> final(self).ids() == old(self).ids(),
            !old(self).ids().contains(id@) ==> final(self).ids().to_multiset() == old(
                self,
            ).ids().push(id@).to_multiset(),
            !old(self).ids().contains(id@) ==> sorted_lex(final(self).ids()),
            !old(self).ids().contains(id@) ==> final(self).ids().len() == old(self).ids().len() + 1,
    {
        if !self.is_applied(id) {
            self.applied.push(id.to_owned());
            assert(self.applied.deep_view() =~= old(self).ids().push(id@));
            let ghost unsorted = self.applied.deep_view();
            sort_strings(&mut self.applied);
            proof {
                vstd::seq_lib::to_multiset_len(unsorted);
                vstd::seq_lib::to_multiset_len(self.applied.deep_view());
            }
        }
    }
}

impl Default for GeneralConfig {
    fn default() -> (r: Self)
        ensures
            !r.autostart,
    {
        GeneralConfig { autostart: false }
    }
}

impl Default for WarningsConfig {
    fn default() -> (r: Self)
        ensures
            !r.dismissed_generic_distro_notice,
    {
        WarningsConfig { dismissed_generic_distro_notice: false }
    }
}

impl Default for MigrationsConfig {
    fn default() -> (r: Self)
        ensures
            r.applied@.len() == 0,
    {
        MigrationsConfig { applied: Vec::new() }
    }
}

impl Default for Config {
    fn default() -> (r: Self)
        ensures
            !r.general.autostart,
            !r.warnings.dismissed_generic_distro_notice,
            r.migrations.applied@.len() == 0,
    {
        Config {
            general: GeneralConfig { autostart: false },
            warnings: WarningsConfig { dismissed_generic_distro_notice: false },
            migrations: MigrationsConfig { applied: Vec::new() },
        }
    }
}

} // verus!
