use vstd::prelude::*;

use crate::error::EngineError;

verus! {

/// Broad family a modifier tool belongs to.
#[derive(Debug, Clone, Copy, PartialEq, Eq, Structural)]
pub enum ToolCategory {
    ControlAssist,
    RuleModifying,
    Hybrid,
}

/// One optional modifier that an experimental run may carry.
#[derive(Debug, Clone, PartialEq, Eq)]
pub struct ToolDefinition {
    pub id: String,
    pub category: ToolCategory,
    pub unlock_threshold: Option<u64>,
    pub incompatible_with: Vec<String>,
}

/// The three tools attached to an experimental run, in slot order.
#[derive(Debug, Clone, PartialEq, Eq)]
pub struct ToolLoadout {
    pub slots: [String; 3],
}

/// The views of a sequence of strings.
pub open spec fn ids_of(s: Seq<String>) -> Seq<Seq<char>> {
    s.map_values(|x: String| x@)
}

/// The first definition in `defs` whose id is `id`.
pub open spec fn find_def(defs: Seq<ToolDefinition>, id: Seq<char>) -> Option<ToolDefinition>
    decreases defs.len(),
{
    if defs.len() == 0 {
        None
    } else if defs[0].id@ == id {
        Some(defs[0])
    } else {
        find_def(defs.subrange(1, defs.len() as int), id)
    }
}

/// The first entry of `incompatible` that is among the ids in `seen`.
pub open spec fn first_conflict(incompatible: Seq<String>, seen: Seq<Seq<char>>) -> Option<String>
    decreases incompatible.len(),
{
    if incompatible.len() == 0 {
        None
    } else if seen.contains(incompatible[0]@) {
        Some(incompatible[0])
    } else {
        first_conflict(incompatible.subrange(1, incompatible.len() as int), seen)
    }
}

/// The text of a loadout summary: the three ids joined by `+`.
pub open spec fn summary_text(slots: Seq<String>) -> Seq<char> {
    slots[0]@ + "+"@ + slots[1]@ + "+"@ + slots[2]@
}

impl ToolLoadout {
    /// The slot ids joined by `+`, for leaderboard rows.
    pub fn summary(&self) -> (r: String)
        ensures
            r@ == summary_text(self.slots@),
    {
        let mut s = self.slots[0].clone();
        s.append("+");
        s.append(self.slots[1].as_str());
        s.append("+");
        s.append(self.slots[2].as_str());
        s
    }
}

/// The fixed catalog of tools. Definitions are kept in strictly ascending order of id, so
/// each id occurs once.
#[derive(Debug, Clone)]
pub struct ToolRegistry {
    tools: Vec<ToolDefinition>,
}

/// Whether id `a` sorts strictly before id `b` (lexicographic order on characters).
pub open spec fn id_before(a: Seq<char>, b: Seq<char>) -> bool
    decreases a.len(),
{
    if a.len() == 0 {
        b.len() > 0
    } else if b.len() == 0 {
        false
    } else if a[0] != b[0] {
        (a[0] as u32) < (b[0] as u32)
    } else {
        id_before(a.drop_first(), b.drop_first())
    }
}

/// The ids of `defs` are strictly ascending.
pub open spec fn ids_ascending(defs: Seq<ToolDefinition>) -> bool {
    forall|i: int, j: int| 0 <= i < j < defs.len() ==> id_before(#[trigger] defs[i].id@, #[trigger] defs[j].id@)
}

/// No id sorts before itself.
pub proof fn lemma_id_before_irreflexive(a: Seq<char>)
    ensures
        !id_before(a, a),
    decreases a.len(),
{
    if a.len() > 0 {
        lemma_id_before_irreflexive(a.drop_first());
    }
}

/// In a catalog with strictly ascending ids, looking up the id of any definition finds
/// that very definition.
pub proof fn lemma_listed_tool_found(defs: Seq<ToolDefinition>, i: int)
    requires
        ids_ascending(defs),
        0 <= i < defs.len(),
    ensures
        find_def(defs, defs[i].id@) == Some(defs[i]),
    decreases defs.len(),
{
    if i > 0 {
        let rest = defs.subrange(1, defs.len() as int);
        assert(id_before(defs[0].id@, defs[i].id@));
        if defs[0].id@ == defs[i].id@ {
            lemma_id_before_irreflexive(defs[0].id@);
        }
        assert forall|a: int, b: int| 0 <= a < b < rest.len() implies id_before(
            #[trigger] rest[a].id@,
            #[trigger] rest[b].id@,
        ) by {
            assert(rest[a] == defs[a + 1] && rest[b] == defs[b + 1]);
        }
        lemma_listed_tool_found(rest, i - 1);
        assert(rest[i - 1] == defs[i]);
    }
}

/// True when `d` has the given id, category and threshold and no incompatibilities.
pub open spec fn plain_def(d: ToolDefinition, id: Seq<char>, category: ToolCategory, threshold: u64) -> bool {
    &&& d.id@ == id
    &&& d.category == category
    &&& d.unlock_threshold == Some(threshold)
    &&& d.incompatible_with@.len() == 0
}

proof fn lemma_demo_ids_ascending(defs: Seq<ToolDefinition>)
    requires
        defs.len() == 4,
        defs[0].id@ == "rewind-step"@,
        defs[1].id@ == "slow-window"@,
        defs[2].id@ == "soft-wrap"@,
        defs[3].id@ == "turn-buffer"@,
    ensures
        ids_ascending(defs),
{
    reveal_strlit("rewind-step");
    reveal_strlit("slow-window");
    reveal_strlit("soft-wrap");
    reveal_strlit("turn-buffer");
    reveal_with_fuel(id_before, 3);
    let a = "rewind-step"@;
    let b = "slow-window"@;
    let c = "soft-wrap"@;
    let d = "turn-buffer"@;
    assert(id_before(a, b));
    assert(id_before(a, c));
    assert(id_before(a, d));
    assert(b.drop_first() == "low-window"@.subrange(0, 10)) by {
        reveal_strlit("low-window");
        assert(b.drop_first() =~= "low-window"@.subrange(0, 10));
    }
    assert(id_before(b.drop_first(), c.drop_first()));
    assert(id_before(b, c));
    assert(id_before(b, d));
    assert(id_before(c, d));
}

fn plain_tool(id: &str, category: ToolCategory, threshold: u64) -> (r: ToolDefinition)
    ensures
        plain_def(r, id@, category, threshold),
{
    ToolDefinition {
        id: id.to_string(),
        category,
        unlock_threshold: Some(threshold),
        incompatible_with: Vec::new(),
    }
}

impl ToolRegistry {
    /// The catalog's invariant: ids strictly ascending, hence each listed once.
    pub open spec fn wf(self) -> bool {
        ids_ascending(self.defs())
    }

    /// The definitions, in listing order.
    pub closed spec fn defs(self) -> Seq<ToolDefinition> {
        self.tools@
    }

    /// True of the demonstration catalog.
    pub open spec fn is_demo(self) -> bool {
        &&& self.defs().len() == 4
        &&& plain_def(self.defs()[0], "rewind-step"@, ToolCategory::Hybrid, 140)
        &&& plain_def(self.defs()[1], "slow-window"@, ToolCategory::ControlAssist, 40)
        &&& plain_def(self.defs()[2], "soft-wrap"@, ToolCategory::RuleModifying, 80)
        &&& plain_def(self.defs()[3], "turn-buffer"@, ToolCategory::ControlAssist, 15)
    }

    /// The catalog of four tools that the game ships with.
    pub fn demo() -> (r: Self)
        ensures
            r.is_demo(),
            r.wf(),
    {
        let mut tools: Vec<ToolDefinition> = Vec::new();
        tools.push(plain_tool("rewind-step", ToolCategory::Hybrid, 140));
        tools.push(plain_tool("slow-window", ToolCategory::ControlAssist, 40));
        tools.push(plain_tool("soft-wrap", ToolCategory::RuleModifying, 80));
        tools.push(plain_tool("turn-buffer", ToolCategory::ControlAssist, 15));
        proof {
            lemma_demo_ids_ascending(tools@);
        }
        ToolRegistry { tools }
    }

    /// The definition with the given id, if the catalog has one.
    pub fn tool(&self, id: &str) -> (r: Option<&ToolDefinition>)
        ensures
            r.is_some() == find_def(self.defs(), id@).is_some(),
            r.is_some() ==> *r.unwrap() == find_def(self.defs(), id@).unwrap(),
    {
        let key = id.to_string();
        let n = self.tools.len();
        let mut i: usize = 0;
        assert(self.tools@.subrange(0, n as int) =~= self.tools@);
        while i < n
            invariant
                n == self.tools@.len(),
                i <= n,
                key@ == id@,
                find_def(self.tools@, id@) == find_def(self.tools@.subrange(i as int, n as int), id@),
            decreases n - i,
        {
            let ghost rest = self.tools@.subrange(i as int, n as int);
            assert(rest.subrange(1, rest.len() as int) =~= self.tools@.subrange(i + 1, n as int));
            if self.tools[i].id == key {
                return Some(&self.tools[i]);
            }
            i = i + 1;
        }
        None
    }

    /// Every definition, in ascending order of id.
    pub fn list(&self) -> (r: &[ToolDefinition])
        ensures
            r@ == self.defs(),
            self.wf() ==> ids_ascending(r@),
            self.wf() ==> forall|i: int|
                0 <= i < r@.len() ==> find_def(r@, #[trigger] r@[i].id@) == Some(r@[i]),
    {
        proof {
            if self.wf() {
                assert forall|i: int| 0 <= i < self.tools@.len() implies find_def(
                    self.tools@,
                    #[trigger] self.tools@[i].id@,
                ) == Some(self.tools@[i]) by {
                    lemma_listed_tool_found(self.tools@, i);
                }
            }
        }
        self.tools.as_slice()
    }

    /// What validating `slots` against `unlocked` yields at slot `k` alone, given that the
    /// earlier slots were accepted.
    pub open spec fn slot_fault(self, unlocked: Seq<Seq<char>>, slots: Seq<String>, k: int) -> Option<EngineError> {
        let slot = slots[k];
        match find_def(self.defs(), slot@) {
            None => Some(EngineError::UnknownTool(slot)),
            Some(d) => if !unlocked.contains(slot@) {
                Some(EngineError::ToolLocked(slot))
            } else {
                match first_conflict(d.incompatible_with@, ids_of(slots.take(k))) {
                    Some(c) => Some(EngineError::IncompatibleTools(slot, c)),
                    None => None,
                }
            },
        }
    }

    /// The first fault among slots `k..`, checked in submission order.
    pub open spec fn first_fault(self, unlocked: Seq<Seq<char>>, slots: Seq<String>, k: int) -> Option<EngineError>
        decreases slots.len() - k,
    {
        if k < 0 || k >= slots.len() {
            None
        } else {
            match self.slot_fault(unlocked, slots, k) {
                Some(e) => Some(e),
                None => self.first_fault(unlocked, slots, k + 1),
            }
        }
    }

    /// The outcome of validating a loadout request: the accepted slots, or the first error.
    pub open spec fn loadout_verdict(self, unlocked: Seq<Seq<char>>, slots: Seq<String>) -> Result<Seq<String>, EngineError> {
        if slots.len() != 3 {
            Err(EngineError::InvalidSlotCount)
        } else {
            match self.first_fault(unlocked, slots, 0) {
                Some(e) => Err(e),
                None => Ok(slots),
            }
        }
    }

    /// Checks a loadout request: exactly three ids, each known, each unlocked, and none
    /// incompatible with an id accepted before it.
    pub fn validate_loadout(&self, unlocked: &[String], slots: &[String]) -> (r: Result<ToolLoadout, EngineError>)
        ensures
            match self.loadout_verdict(ids_of(unlocked@), slots@) {
                Ok(s) => r is Ok && r->Ok_0.slots@ == s,
                Err(e) => r == Err::<ToolLoadout, EngineError>(e),
            },
    {
        if slots.len() != 3 {
            return Err(EngineError::InvalidSlotCount);
        }
        let mut k: usize = 0;
        while k < 3
            invariant
                slots@.len() == 3,
                k <= 3,
                self.first_fault(ids_of(unlocked@), slots@, 0) == self.first_fault(ids_of(unlocked@), slots@, k as int),
            decreases 3 - k,
        {
            let slot = &slots[k];
            match self.tool(slot.as_str()) {
                None => {
                    return Err(EngineError::UnknownTool(slot.clone()));
                },
                Some(def) => {
                    if !contains_id(unlocked, slot) {
                        return Err(EngineError::ToolLocked(slot.clone()));
                    }
                    match conflict_with(&def.incompatible_with, slots, k) {
                        Some(c) => {
                            return Err(EngineError::IncompatibleTools(slot.clone(), c));
                        },
                        None => {},
                    }
                },
            }
            k = k + 1;
        }
        Ok(ToolLoadout { slots: [slots[0].clone(), slots[1].clone(), slots[2].clone()] })
    }
}

/// Whether `ids` holds a string equal to `id`.
pub fn contains_id(ids: &[String], id: &String) -> (r: bool)
    ensures
        r == ids_of(ids@).contains(id@),
{
    let mut i: usize = 0;
    while i < ids.len()
        invariant
            i <= ids@.len(),
            forall|j: int| 0 <= j < i ==> ids@[j]@ != id@,
        decreases ids@.len() - i,
    {
        if ids[i] == *id {
            assert(ids_of(ids@)[i as int] == id@);
            return true;
        }
        i = i + 1;
    }
    assert(!ids_of(ids@).contains(id@)) by {
        if ids_of(ids@).contains(id@) {
            let j = choose|j: int| 0 <= j < ids_of(ids@).len() && ids_of(ids@)[j] == id@;
            assert(ids@[j]@ == id@);
        }
    }
    false
}

/// The first entry of `incompatible` that equals one of `slots[..k]`, cloned.
fn conflict_with(incompatible: &Vec<String>, slots: &[String], k: usize) -> (r: Option<String>)
    requires
        k <= slots@.len(),
    ensures
        r == first_conflict(incompatible@, ids_of(slots@.take(k as int))),
{
    let ghost seen = ids_of(slots@.take(k as int));
    let n = incompatible.len();
    let mut i: usize = 0;
    assert(incompatible@.subrange(0, n as int) =~= incompatible@);
    while i < n
        invariant
            n == incompatible@.len(),
            i <= n,
            seen == ids_of(slots@.take(k as int)),
            k <= slots@.len(),
            first_conflict(incompatible@, seen) == first_conflict(incompatible@.subrange(i as int, n as int), seen),
        decreases n - i,
    {
        let ghost rest = incompatible@.subrange(i as int, n as int);
        assert(rest.subrange(1, rest.len() as int) =~= incompatible@.subrange(i + 1, n as int));
        let mut j: usize = 0;
        while j < k
            invariant
                j <= k,
                k <= slots@.len(),
                i < n,
                n == incompatible@.len(),
                seen == ids_of(slots@.take(k as int)),
                rest == incompatible@.subrange(i as int, n as int),
                first_conflict(incompatible@, seen) == first_conflict(rest, seen),
                forall|t: int| 0 <= t < j ==> slots@[t]@ != incompatible@[i as int]@,
            decreases k - j,
        {
            if slots[j] == incompatible[i] {
                assert(seen[j as int] == incompatible@[i as int]@);
                assert(seen.contains(rest[0]@));
                return Some(incompatible[i].clone());
            }
            j = j + 1;
        }
        assert(!seen.contains(incompatible@[i as int]@)) by {
            if seen.contains(incompatible@[i as int]@) {
                let t = choose|t: int| 0 <= t < seen.len() && seen[t] == incompatible@[i as int]@;
                assert(slots@[t]@ == incompatible@[i as int]@);
            }
        }
        i = i + 1;
    }
    None
}

} // verus!
