//! Which commands a hotkey runs.

use crate::keys::Hotkey;
use crate::table::Table;
use vstd::prelude::*;

verus! {

/// A command of the window manager, by its number in the command registry:
/// equal numbers are equal commands.
#[derive(Clone, Copy, Debug, PartialEq, Eq, Structural)]
pub struct WmCommand {
    pub id: u64,
}

/// The hotkeys that a specification stands for under the current keyboard
/// layout; `None` where it no longer resolves. A specification that leaves the
/// side of a modifier open stands for several.
pub type Resolution = Option<Vec<Hotkey>>;

/// The commands of each hotkey.
#[derive(Debug)]
pub struct HotkeyTable {
    commands: Table<Hotkey, Vec<WmCommand>>,
}

impl View for HotkeyTable {
    type V = Map<Hotkey, Seq<WmCommand>>;

    closed spec fn view(&self) -> Map<Hotkey, Seq<WmCommand>> {
        self.commands@.map_values(|commands: Vec<WmCommand>| commands@)
    }
}

/// Whether a resolved specification stands for `hotkey`.
pub open spec fn stands_for(resolution: Resolution, hotkey: Hotkey) -> bool {
    resolution matches Some(hotkeys) && hotkeys@.contains(hotkey)
}

/// The commands of the specifications that stand for `hotkey`, in their order,
/// each once.
pub open spec fn commands_for(
    resolutions: Seq<Resolution>,
    commands: Seq<WmCommand>,
    hotkey: Hotkey,
) -> Seq<WmCommand>
    decreases resolutions.len(),
{
    if resolutions.len() == 0 {
        Seq::empty()
    } else {
        added(
            commands_for(resolutions.drop_last(), commands, hotkey),
            stands_for(resolutions.last(), hotkey),
            commands[resolutions.len() - 1],
        )
    }
}

/// `list` with `command` at its end, if it is to be added and not in it yet.
pub open spec fn added(list: Seq<WmCommand>, adds: bool, command: WmCommand) -> Seq<WmCommand> {
    if adds && !list.contains(command) {
        list.push(command)
    } else {
        list
    }
}

/// The table in which every hotkey that a specification stands for has the
/// commands of those specifications.
pub open spec fn bindings(
    resolutions: Seq<Resolution>,
    commands: Seq<WmCommand>,
) -> Map<Hotkey, Seq<WmCommand>> {
    Map::new(
        |hotkey: Hotkey| commands_for(resolutions, commands, hotkey).len() > 0,
        |hotkey: Hotkey| commands_for(resolutions, commands, hotkey),
    )
}

/// The commands in the second places of a list of specifications.
pub open spec fn spec_commands(specs: Seq<(String, WmCommand)>) -> Seq<WmCommand> {
    Seq::new(specs.len(), |i: int| specs[i].1)
}

impl HotkeyTable {
    pub closed spec fn wf(self) -> bool {
        self.commands.wf()
    }

    /// A hotkey's commands; none for a hotkey that is not bound.
    pub open spec fn list(self, hotkey: Hotkey) -> Seq<WmCommand> {
        if self@.dom().contains(hotkey) {
            self@[hotkey]
        } else {
            Seq::empty()
        }
    }

    pub fn new() -> (r: HotkeyTable)
        ensures
            r.wf(),
            r@ == Map::<Hotkey, Seq<WmCommand>>::empty(),
    {
        let r = HotkeyTable { commands: Table::new() };
        assert(r@ =~= Map::<Hotkey, Seq<WmCommand>>::empty());
        r
    }

    pub fn is_empty(&self) -> (r: bool)
        ensures
            r == (self@ == Map::<Hotkey, Seq<WmCommand>>::empty()),
    {
        proof {
            if self.commands@ == Map::<Hotkey, Vec<WmCommand>>::empty() {
                assert(self@ =~= Map::<Hotkey, Seq<WmCommand>>::empty());
            } else {
                assert(self@.dom() =~= self.commands@.dom());
                assert(exists|h: Hotkey| self.commands@.dom().contains(h)) by {
                    if forall|h: Hotkey| !self.commands@.dom().contains(h) {
                        assert(self.commands@ =~= Map::<Hotkey, Vec<WmCommand>>::empty());
                    }
                }
            }
        }
        self.commands.is_empty()
    }

    /// The commands that `hotkey` is bound to.
    pub fn get(&self, hotkey: Hotkey) -> (r: Option<&Vec<WmCommand>>)
        ensures
            r is Some <==> self@.dom().contains(hotkey),
            r matches Some(commands) ==> commands@ == self@[hotkey],
    {
        self.commands.get(hotkey)
    }

    fn add(&mut self, hotkey: Hotkey, command: WmCommand)
        requires
            old(self).wf(),
        ensures
            final(self).wf(),
            final(self)@ == old(self)@.insert(
                hotkey,
                added(old(self).list(hotkey), true, command),
            ),
    {
        let ghost before = self@;
        let mut list = match self.commands.take(hotkey) {
            Some(list) => list,
            None => Vec::new(),
        };
        assert(list@ == old(self).list(hotkey));
        let mut known = false;
        let mut i: usize = 0;
        while i < list.len()
            invariant
                i <= list@.len(),
                known == list@.take(i as int).contains(command),
            decreases list@.len() - i,
        {
            proof {
                let prefix = list@.take(i as int);
                let longer = list@.take(i + 1);
                assert(longer =~= prefix.push(list@[i as int]));
                assert(longer[i as int] == list@[i as int]);
                if prefix.contains(command) {
                    let k = choose|k: int| 0 <= k < prefix.len() && prefix[k] == command;
                    assert(longer[k] == command);
                }
            }
            if list[i] == command {
                known = true;
            }
            i = i + 1;
        }
        assert(list@.take(i as int) =~= list@);
        if !known {
            list.push(command);
        }
        self.commands.insert(hotkey, list);
        assert(self@ =~= before.insert(hotkey, list@));
    }

    /// The table of the given specifications: the command at each place is
    /// bound to every hotkey that the resolution at that place stands for.
    pub fn rebuild(resolutions: &Vec<Resolution>, specs: &Vec<(String, WmCommand)>) -> (r:
        HotkeyTable)
        requires
            resolutions@.len() == specs@.len(),
        ensures
            r.wf(),
            r@ == bindings(resolutions@, spec_commands(specs@)),
    {
        let ghost commands = spec_commands(specs@);
        let mut table = HotkeyTable::new();
        let mut i: usize = 0;
        assert(table@ =~= bindings(resolutions@.take(0), commands));
        while i < specs.len()
            invariant
                resolutions@.len() == specs@.len(),
                commands == spec_commands(specs@),
                i <= specs@.len(),
                table.wf(),
                table@ == bindings(resolutions@.take(i as int), commands),
            decreases specs@.len() - i,
        {
            let ghost before = table@;
            let ghost earlier = resolutions@.take(i as int);
            let command = specs[i].1;
            proof {
                assert forall|h: Hotkey| table.list(h) == #[trigger] added(
                    commands_for(earlier, commands, h),
                    false,
                    command,
                ) by {
                    assert(table.list(h) =~= commands_for(earlier, commands, h));
                }
            }
            if let Some(hotkeys) = &resolutions[i] {
                let mut j: usize = 0;
                while j < hotkeys.len()
                    invariant
                        j <= hotkeys@.len(),
                        table.wf(),
                        forall|h: Hotkey| table.list(h) == #[trigger] added(
                            commands_for(earlier, commands, h),
                            hotkeys@.take(j as int).contains(h),
                            command,
                        ),
                        forall|h: Hotkey|
                            #[trigger] table@.dom().contains(h) ==> table@[h].len() > 0,
                    decreases hotkeys@.len() - j,
                {
                    let ghost previous = table;
                    let ghost shorter = hotkeys@.take(j as int);
                    table.add(hotkeys[j], command);
                    proof {
                        let longer = hotkeys@.take(j + 1);
                        assert(longer =~= shorter.push(hotkeys@[j as int]));
                        assert forall|h: Hotkey| table.list(h) == #[trigger] added(
                            commands_for(earlier, commands, h),
                            longer.contains(h),
                            command,
                        ) by {
                            assert(previous.list(h) == added(
                                commands_for(earlier, commands, h),
                                shorter.contains(h),
                                command,
                            ));
                            lemma_contains_push(shorter, hotkeys@[j as int], h);
                            if h == hotkeys@[j as int] {
                                lemma_added_twice(
                                    commands_for(earlier, commands, h),
                                    shorter.contains(h),
                                    command,
                                );
                            }
                        }
                        assert forall|h: Hotkey| #[trigger]
                            table@.dom().contains(h) implies table@[h].len() > 0 by {
                            if h == hotkeys@[j as int] {
                                lemma_added_holds(previous.list(h), command);
                            } else {
                                assert(previous@.dom().contains(h));
                            }
                        }
                    }
                    j = j + 1;
                }
                proof {
                    assert(hotkeys@.take(j as int) =~= hotkeys@);
                    assert forall|h: Hotkey| table.list(h) == #[trigger] added(
                        commands_for(earlier, commands, h),
                        stands_for(resolutions@[i as int], h),
                        command,
                    ) by {
                        assert(table.list(h) == added(
                            commands_for(earlier, commands, h),
                            hotkeys@.contains(h),
                            command,
                        ));
                    }
                }
            } else {
                assert forall|h: Hotkey| table.list(h) == #[trigger] added(
                    commands_for(earlier, commands, h),
                    stands_for(resolutions@[i as int], h),
                    command,
                ) by {
                    assert(table.list(h) == added(
                        commands_for(earlier, commands, h),
                        false,
                        command,
                    ));
                }
            }
            proof {
                let later = resolutions@.take(i + 1);
                assert(later.drop_last() =~= earlier);
                assert(later.last() == resolutions@[i as int]);
                assert(commands[i as int] == command);
                assert forall|h: Hotkey| table.list(h) == #[trigger] commands_for(
                    later,
                    commands,
                    h,
                ) by {
                    assert(table.list(h) == added(
                        commands_for(earlier, commands, h),
                        stands_for(resolutions@[i as int], h),
                        command,
                    ));
                }
                assert forall|h: Hotkey| #[trigger] table@.dom().contains(h) <==> bindings(
                    later,
                    commands,
                ).dom().contains(h) by {
                    assert(table.list(h) == commands_for(later, commands, h));
                }
                assert forall|h: Hotkey| table@.dom().contains(h) implies #[trigger] table@[h]
                    == bindings(later, commands)[h] by {
                    assert(table.list(h) == commands_for(later, commands, h));
                }
                assert(table@ =~= bindings(later, commands));
            }
            i = i + 1;
        }
        assert(resolutions@.take(i as int) =~= resolutions@);
        table
    }
}

proof fn lemma_contains_push(s: Seq<Hotkey>, x: Hotkey, h: Hotkey)
    ensures
        s.push(x).contains(h) <==> s.contains(h) || h == x,
{
    let longer = s.push(x);
    assert(longer[s.len() as int] == x);
    if s.contains(h) {
        let i = choose|i: int| 0 <= i < s.len() && s[i] == h;
        assert(longer[i] == h);
    }
}

proof fn lemma_added_holds(list: Seq<WmCommand>, command: WmCommand)
    ensures
        added(list, true, command).contains(command),
        added(list, true, command).len() > 0,
{
    if !list.contains(command) {
        assert(list.push(command)[list.len() as int] == command);
    }
}

proof fn lemma_added_twice(list: Seq<WmCommand>, adds: bool, command: WmCommand)
    ensures
        added(added(list, adds, command), true, command) == added(list, true, command),
{
    lemma_added_holds(list, command);
}

/// A hotkey's commands are those of the specifications that stand for it, and
/// none twice.
pub proof fn law_hotkey_runs_its_commands_once(
    resolutions: Seq<Resolution>,
    commands: Seq<WmCommand>,
    hotkey: Hotkey,
)
    requires
        resolutions.len() <= commands.len(),
    ensures
        forall|command: WmCommand| #[trigger]
            commands_for(resolutions, commands, hotkey).contains(command) <==> exists|i: int|
                0 <= i < resolutions.len() && stands_for(resolutions[i], hotkey) && commands[i]
                    == command,
        commands_for(resolutions, commands, hotkey).no_duplicates(),
    decreases resolutions.len(),
{
    if resolutions.len() > 0 {
        let rest = resolutions.drop_last();
        let n = resolutions.len() - 1;
        law_hotkey_runs_its_commands_once(rest, commands, hotkey);
        let before = commands_for(rest, commands, hotkey);
        let after = commands_for(resolutions, commands, hotkey);
        assert forall|command: WmCommand| #[trigger]
            after.contains(command) <==> exists|i: int|
                0 <= i < resolutions.len() && stands_for(resolutions[i], hotkey) && commands[i]
                    == command by {
            if after.contains(command) {
                if before.contains(command) {
                    let i = choose|i: int|
                        0 <= i < rest.len() && stands_for(rest[i], hotkey) && commands[i]
                            == command;
                    assert(stands_for(resolutions[i], hotkey));
                } else {
                    let k = choose|k: int| 0 <= k < after.len() && after[k] == command;
                    assert(k == before.len()) by {
                        if k < before.len() {
                            assert(before[k] == command);
                        }
                    }
                    assert(stands_for(resolutions[n], hotkey));
                }
            }
            if exists|i: int|
                0 <= i < resolutions.len() && stands_for(resolutions[i], hotkey) && commands[i]
                    == command {
                let i = choose|i: int|
                    0 <= i < resolutions.len() && stands_for(resolutions[i], hotkey)
                        && commands[i] == command;
                if i < n {
                    assert(stands_for(rest[i], hotkey));
                    assert(before.contains(command));
                    let k = choose|k: int| 0 <= k < before.len() && before[k] == command;
                    assert(after[k] == command);
                } else {
                    lemma_added_holds(before, command);
                }
            }
        }
    }
}

} // verus!
