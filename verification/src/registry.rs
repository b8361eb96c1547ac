//! The families of models that are known by their identifiers.

use crate::command_r::CommandRArchitecture;
use crate::dbrx::DbrxArchitecture;
use crate::falcon::FalconArchitecture;
use crate::gpt_neox::GptNeoxArchitecture;
use crate::granite::GraniteArchitecture;
use crate::internlm3::InternLm3Architecture;
use crate::llava::LlavaArchitecture;
use crate::mamba2::Mamba2Architecture;
use crate::minicpm::MiniCpmArchitecture;
use crate::mixtral::MixtralArchitecture;
use crate::olmo2::Olmo2Architecture;
use crate::error::{ArchError, ArchErrorView, ArchResult};
use crate::text::same_text;
use crate::traits::ModelArchitecture;
use vstd::prelude::*;

verus! {

/// A family of models.
#[derive(Debug, Clone, Copy)]
pub enum Family {
    CommandR(CommandRArchitecture),
    Dbrx(DbrxArchitecture),
    Falcon(FalconArchitecture),
    GptNeox(GptNeoxArchitecture),
    Granite(GraniteArchitecture),
    InternLm3(InternLm3Architecture),
    Llava(LlavaArchitecture),
    Mamba2(Mamba2Architecture),
    MiniCpm(MiniCpmArchitecture),
    Mixtral(MixtralArchitecture),
    Olmo2(Olmo2Architecture),
}

impl Family {
    /// The identifier.
    pub open spec fn id(&self) -> Seq<char> {
        match *self {
            Family::CommandR(a) => a.id(),
            Family::Dbrx(a) => a.id(),
            Family::Falcon(a) => a.id(),
            Family::GptNeox(a) => a.id(),
            Family::Granite(a) => a.id(),
            Family::InternLm3(a) => a.id(),
            Family::Llava(a) => a.id(),
            Family::Mamba2(a) => a.id(),
            Family::MiniCpm(a) => a.id(),
            Family::Mixtral(a) => a.id(),
            Family::Olmo2(a) => a.id(),
        }
    }

    /// The identifier, as `general.architecture` gives it.
    pub fn arch_id(&self) -> (r: &'static str)
        ensures
            r@ == self.id(),
    {
        match self {
            Family::CommandR(a) => a.arch_id(),
            Family::Dbrx(a) => a.arch_id(),
            Family::Falcon(a) => a.arch_id(),
            Family::GptNeox(a) => a.arch_id(),
            Family::Granite(a) => a.arch_id(),
            Family::InternLm3(a) => a.arch_id(),
            Family::Llava(a) => a.arch_id(),
            Family::Mamba2(a) => a.arch_id(),
            Family::MiniCpm(a) => a.arch_id(),
            Family::Mixtral(a) => a.arch_id(),
            Family::Olmo2(a) => a.arch_id(),
        }
    }
}

/// All families, in the order of their identifiers.
pub open spec fn families() -> Seq<Family> {
    seq![
        Family::CommandR(CommandRArchitecture),
        Family::Dbrx(DbrxArchitecture),
        Family::Falcon(FalconArchitecture),
        Family::GptNeox(GptNeoxArchitecture),
        Family::Granite(GraniteArchitecture),
        Family::InternLm3(InternLm3Architecture),
        Family::Llava(LlavaArchitecture),
        Family::Mamba2(Mamba2Architecture),
        Family::MiniCpm(MiniCpmArchitecture),
        Family::Mixtral(MixtralArchitecture),
        Family::Olmo2(Olmo2Architecture),
    ]
}

/// Whether a family among some has an identifier.
pub open spec fn has_id(entries: Seq<Family>, id: Seq<char>) -> bool {
    exists|i: int| 0 <= i < entries.len() && #[trigger] entries[i].id() == id
}

/// Families that can be looked up by their identifiers.
#[derive(Debug)]
pub struct ArchitectureRegistry {
    /// The families.
    pub entries: Vec<Family>,
}

impl ArchitectureRegistry {
    /// A registry of all families.
    pub fn with_builtins() -> (r: Self)
        ensures
            r.entries@ == families(),
    {
        let mut entries: Vec<Family> = Vec::new();
        entries.push(Family::CommandR(CommandRArchitecture::new()));
        entries.push(Family::Dbrx(DbrxArchitecture::new()));
        entries.push(Family::Falcon(FalconArchitecture::new()));
        entries.push(Family::GptNeox(GptNeoxArchitecture::new()));
        entries.push(Family::Granite(GraniteArchitecture::new()));
        entries.push(Family::InternLm3(InternLm3Architecture::new()));
        entries.push(Family::Llava(LlavaArchitecture::new()));
        entries.push(Family::Mamba2(Mamba2Architecture::new()));
        entries.push(Family::MiniCpm(MiniCpmArchitecture::new()));
        entries.push(Family::Mixtral(MixtralArchitecture::new()));
        entries.push(Family::Olmo2(Olmo2Architecture::new()));
        assert(entries@ =~= families());
        ArchitectureRegistry { entries }
    }

    /// Looks up a family.
    pub fn get(&self, arch_id: &str) -> (r: ArchResult<Family>)
        ensures
            match r {
                Ok(a) => a.id() == arch_id@ && self.entries@.contains(a),
                Err(e) => !has_id(self.entries@, arch_id@) && e@
                    == (ArchErrorView::UnknownArchitecture { arch_id: arch_id@ }),
            },
    {
        let n: usize = self.entries.len();
        let mut i: usize = 0;
        while i < n
            invariant
                i <= n,
                n == self.entries@.len(),
                forall|j: int| 0 <= j < i ==> #[trigger] self.entries@[j].id() != arch_id@,
            decreases n - i,
        {
            let a: Family = self.entries[i];
            if same_text(a.arch_id(), arch_id) {
                return Ok(a);
            }
            i = i + 1;
        }
        Err(ArchError::UnknownArchitecture { arch_id: String::from_str(arch_id) })
    }

    /// Whether a family of an identifier is there.
    pub fn contains(&self, arch_id: &str) -> (b: bool)
        ensures
            b == has_id(self.entries@, arch_id@),
    {
        match self.get(arch_id) {
            Ok(a) => {
                proof {
                    let i = self.entries@.index_of(a);
                    assert(self.entries@[i].id() == arch_id@);
                }
                true
            },
            Err(_) => false,
        }
    }
}

/// No two families share an identifier: a look-up has one answer.
pub proof fn law_ids_are_distinct(i: int, j: int)
    requires
        0 <= i < j < families().len(),
    ensures
        families()[i].id() != families()[j].id(),
{
    reveal_strlit("command-r");
    reveal_strlit("dbrx");
    reveal_strlit("falcon");
    reveal_strlit("gptneox");
    reveal_strlit("granite");
    reveal_strlit("internlm3");
    reveal_strlit("llava");
    reveal_strlit("mamba2");
    reveal_strlit("minicpm");
    reveal_strlit("mixtral");
    reveal_strlit("olmo2");
    assert("command-r"@[0] != "internlm3"@[0]);
    assert("falcon"@[0] != "mamba2"@[0]);
    assert("gptneox"@[1] != "granite"@[1]);
    assert("gptneox"@[0] != "minicpm"@[0]);
    assert("gptneox"@[0] != "mixtral"@[0]);
    assert("granite"@[0] != "minicpm"@[0]);
    assert("granite"@[0] != "mixtral"@[0]);
    assert("llava"@[0] != "olmo2"@[0]);
    assert("minicpm"@[2] != "mixtral"@[2]);
}

/// Every family is found by its own identifier.
pub proof fn law_families_are_found(i: int)
    requires
        0 <= i < families().len(),
    ensures
        has_id(families(), families()[i].id()),
{
}

/// The registry of all families has one entry for each identifier, and the entry
/// of an identifier is the family of that name.
pub proof fn law_identifiers_name_their_families(f: Family)
    ensures
        families().len() == 11,
        families().contains(f),
        f is CommandR ==> f.id() == "command-r"@,
        f is Dbrx ==> f.id() == "dbrx"@,
        f is Falcon ==> f.id() == "falcon"@,
        f is GptNeox ==> f.id() == "gptneox"@,
        f is Granite ==> f.id() == "granite"@,
        f is InternLm3 ==> f.id() == "internlm3"@,
        f is Llava ==> f.id() == "llava"@,
        f is Mamba2 ==> f.id() == "mamba2"@,
        f is MiniCpm ==> f.id() == "minicpm"@,
        f is Mixtral ==> f.id() == "mixtral"@,
        f is Olmo2 ==> f.id() == "olmo2"@,
{
    assert(families()[0] is CommandR);
    assert(families()[1] is Dbrx);
    assert(families()[2] is Falcon);
    assert(families()[3] is GptNeox);
    assert(families()[4] is Granite);
    assert(families()[5] is InternLm3);
    assert(families()[6] is Llava);
    assert(families()[7] is Mamba2);
    assert(families()[8] is MiniCpm);
    assert(families()[9] is Mixtral);
    assert(families()[10] is Olmo2);
}

/// Families are found by their identifiers, and by nothing else.
pub proof fn law_only_known_identifiers_are_found(id: Seq<char>)
    ensures
        has_id(families(), id)
            <==> id == "command-r"@ || id == "dbrx"@ || id == "falcon"@ || id == "gptneox"@
            || id == "granite"@ || id == "internlm3"@ || id == "llava"@ || id == "mamba2"@
            || id == "minicpm"@ || id == "mixtral"@ || id == "olmo2"@,
{
    assert(families()[0].id() == "command-r"@);
    assert(families()[1].id() == "dbrx"@);
    assert(families()[2].id() == "falcon"@);
    assert(families()[3].id() == "gptneox"@);
    assert(families()[4].id() == "granite"@);
    assert(families()[5].id() == "internlm3"@);
    assert(families()[6].id() == "llava"@);
    assert(families()[7].id() == "mamba2"@);
    assert(families()[8].id() == "minicpm"@);
    assert(families()[9].id() == "mixtral"@);
    assert(families()[10].id() == "olmo2"@);
    if has_id(families(), id) {
        let i = choose|i: int| 0 <= i < families().len() && #[trigger] families()[i].id() == id;
        assert(families()[i].id() == id);
    }
}

} // verus!
