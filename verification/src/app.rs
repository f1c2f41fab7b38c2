//! The app loop state: the component registry, the FIFO action queue,
//! the active tab, and the dispatch rules that tie them together.

use vstd::prelude::*;

use std::collections::VecDeque;

use crate::action::{Action, ActionV};
use crate::component::{Component, Footer, TabBar};
use crate::crudedit::{CrudEdit, CrudRow};
use crate::crudlist::{CrudData, CrudList};
use crate::entity::Entity;
use crate::keys::{step_buffer, step_emits, table_wf, KeyBuffer, KeyPress, KeyTable};
use crate::mode::Mode;
use crate::store::{AppError, Db};

verus! {

/// Weight of a command by rank: exponentially larger for commands that
/// can set off longer cascades of follow-ups.
pub open spec fn pow8(n: nat) -> nat
    decreases n,
{
    if n == 0 {
        1
    } else {
        8 * pow8((n - 1) as nat)
    }
}

/// Weight of one queued command.
pub open spec fn action_weight(a: ActionV) -> nat {
    pow8(a.rank())
}

/// Total weight of the queue: the measure that shrinks with every
/// processed command, which is what makes draining terminate.
pub open spec fn queue_weight(s: Seq<Action>) -> nat
    decreases s.len(),
{
    if s.len() == 0 {
        0
    } else {
        action_weight(s[0]@) + queue_weight(s.drop_first())
    }
}

proof fn lemma_pow8_pos(n: nat)
    ensures
        pow8(n) >= 1,
    decreases n,
{
    if n > 0 {
        lemma_pow8_pos((n - 1) as nat);
    }
}

proof fn lemma_pow8_mono(m: nat, n: nat)
    requires
        m <= n,
    ensures
        pow8(m) <= pow8(n),
    decreases n,
{
    if m < n {
        lemma_pow8_mono(m, (n - 1) as nat);
        lemma_pow8_pos((n - 1) as nat);
    }
}

proof fn lemma_queue_weight_push(s: Seq<Action>, a: Action)
    ensures
        queue_weight(s.push(a)) == queue_weight(s) + action_weight(a@),
    decreases s.len(),
{
    if s.len() == 0 {
        assert(s.push(a)[0] == a);
        assert(s.push(a).drop_first() =~= Seq::<Action>::empty());
        assert(queue_weight(s.push(a)) == action_weight(a@) + queue_weight(
            s.push(a).drop_first(),
        ));
        assert(queue_weight(s.push(a).drop_first()) == 0);
        assert(queue_weight(s) == 0);
    } else {
        assert(s.push(a)[0] == s[0]);
        assert(s.push(a).drop_first() =~= s.drop_first().push(a));
        lemma_queue_weight_push(s.drop_first(), a);
        assert(queue_weight(s.push(a)) == action_weight(s[0]@) + queue_weight(
            s.drop_first().push(a),
        ));
        assert(queue_weight(s) == action_weight(s[0]@) + queue_weight(s.drop_first()));
    }
}


proof fn lemma_steps_from_extend(pre: App, mid: App, popped: App, a: Action, post: App, n: nat)
    requires
        App::steps_from(pre, mid, n),
        mid.queue@.len() > 0,
        App::queue_popped(mid, popped),
        a == mid.queue@[0],
        App::step_spec(popped, a, post),
    ensures
        App::steps_from(pre, post, n + 1),
    decreases n,
{
    if n == 0 {
        assert(mid == pre);
        assert(App::queue_popped(pre, popped) && App::step_spec(popped, pre.queue@[0], post)
            && App::steps_from(post, post, 0));
        assert(App::steps_from(pre, post, 1));
    } else {
        let (p2, s2): (App, App) = choose|p2: App, s2: App|
            App::queue_popped(pre, p2) && #[trigger] App::step_spec(p2, pre.queue@[0], s2)
                && App::steps_from(s2, mid, (n - 1) as nat);
        lemma_steps_from_extend(s2, mid, popped, a, post, (n - 1) as nat);
        assert(App::queue_popped(pre, p2) && App::step_spec(p2, pre.queue@[0], s2)
            && App::steps_from(s2, post, (n - 1) as nat + 1));
        assert(App::steps_from(pre, post, n + 1));
    }
}

/// The focus router and app loop state.  It owns the component registry,
/// the action queue, the active tab, the termination and suspension
/// flags, the pending-key buffer, the keybinding table, and the backing
/// database that stands in for the persistence connection.
pub struct App {
    pub components: Vec<Component>,
    pub queue: VecDeque<Action>,
    pub mode: Mode,
    pub should_quit: bool,
    pub should_suspend: bool,
    pub pending_render: bool,
    pub buffer: KeyBuffer,
    pub table: KeyTable,
    pub db: Db,
}

impl App {
    /// The fixed registry: tab bar, footer, then a list view and an edit
    /// form for each administered record type, in draw order.
    pub open spec fn registry_wf(cs: Seq<Component>) -> bool {
        &&& cs.len() == 6
        &&& cs[0] matches Component::TabBar(_)
        &&& cs[1] matches Component::Footer(_)
        &&& (cs[2] matches Component::List(c) && c.mode == Mode::Posts)
        &&& (cs[3] matches Component::Edit(c) && c.mode == Mode::Posts)
        &&& (cs[4] matches Component::List(c) && c.mode == Mode::Users)
        &&& (cs[5] matches Component::Edit(c) && c.mode == Mode::Users)
    }

    /// Both components of one registry slot, before and after a step,
    /// hold the same kind of component for the same tab.
    pub open spec fn same_slot(c1: Component, c2: Component) -> bool {
        match c1 {
            Component::TabBar(_) => c2 matches Component::TabBar(_),
            Component::Footer(_) => c2 matches Component::Footer(_),
            Component::List(a) => c2 matches Component::List(b) && b.mode == a.mode,
            Component::Edit(a) => c2 matches Component::Edit(b) && b.mode == a.mode,
        }
    }

    /// Well-formedness of the whole loop state.
    pub open spec fn wf(self) -> bool {
        &&& App::registry_wf(self.components@)
        &&& (forall|i: int|
            0 <= i < self.components@.len() ==> (#[trigger] self.components@[i]).wf())
        &&& self.db.wf()
        &&& table_wf(self.table@)
    }

    /// The full loop-level transition of processing one command: how the
    /// state after the dispatch relates to the state before it and to the
    /// command.  [`App::process_action`] ensures exactly this relation,
    /// and [`App::drained_spec`] chains it along the queue front.
    pub open spec fn step_spec(pre: App, a: Action, post: App) -> bool {
        &&& post.wf()
        &&& post.table == pre.table
        &&& post.mode == (match a@ {
            ActionV::TabChange(m) => m,
            _ => pre.mode,
        })
        &&& post.should_quit == (pre.should_quit || a@ == ActionV::Quit)
        &&& post.should_suspend == (if a@ == ActionV::Suspend {
            true
        } else if a@ == ActionV::Resume {
            false
        } else {
            pre.should_suspend
        })
        &&& post.pending_render == (pre.pending_render || a@ == ActionV::Render || (
        a@ matches ActionV::Resize(_, _)))
        &&& (a@ == ActionV::Tick ==> post.buffer@.len() == 0)
        &&& (a@ != ActionV::Tick ==> post.buffer == pre.buffer)
        &&& pre.queue@.is_prefix_of(post.queue@)
        &&& (a@.rank() == 0 ==> post.queue@ == pre.queue@)
        &&& (a@.rank() >= 1 ==> queue_weight(post.queue@) <= queue_weight(pre.queue@) + 7 * pow8(
            (a@.rank() - 1) as nat,
        ))
        &&& post.components@.len() == pre.components@.len()
        &&& (forall|i: int|
            0 <= i < pre.components@.len() ==> App::same_slot(
                #[trigger] pre.components@[i],
                post.components@[i],
            ))
        &&& (forall|i: int|
            0 <= i < pre.components@.len() && !(#[trigger] pre.components@[i]).focused_spec()
                && !a@.is_focus_changed_spec() ==> post.components@[i] == pre.components@[i])
        &&& (forall|i: int|
            0 <= i < pre.components@.len() && a@.is_focus_changed_spec() && (match (
            #[trigger] pre.components@[i]).declared_mode() {
                Some(dm) => dm != a@.target_mode(),
                None => false,
            }) ==> Component::isolated(pre.components@[i], a@, post.components@[i]))
        &&& (a@.is_focus_changed_spec() ==> post.db == pre.db)
        &&& (forall|i: int|
            a@.is_focus_changed_spec() && 0 <= i < pre.components@.len()
                ==> #[trigger] Component::focus_step_spec(
                pre.components@[i],
                pre.db,
                a@,
                post.components@[i],
            ))
        &&& (a@ == ActionV::NextTab ==> post.queue@ == pre.queue@.push(
            Action::TabChange(pre.mode.next_spec()),
        ))
        &&& (a@.is_loop_only() ==> post.db == pre.db && (forall|i: int|
            0 <= i < pre.components@.len() ==> post.components@[i] == #[trigger] pre.components@[i]))
    }

    /// `popped` is `pre` with the front command removed from its queue
    /// and everything else as it was: the pop that starts one drain
    /// iteration.
    pub open spec fn queue_popped(pre: App, popped: App) -> bool {
        &&& popped.components == pre.components
        &&& popped.queue@ == pre.queue@.drop_first()
        &&& popped.mode == pre.mode
        &&& popped.should_quit == pre.should_quit
        &&& popped.should_suspend == pre.should_suspend
        &&& popped.pending_render == pre.pending_render
        &&& popped.buffer == pre.buffer
        &&& popped.table == pre.table
        &&& popped.db == pre.db
    }

    /// `post` is reached from `pre` by taking exactly `n` front commands
    /// off the queue, first-in first-out, and processing each one as
    /// [`App::step_spec`] states.
    pub open spec fn steps_from(pre: App, post: App, n: nat) -> bool
        decreases n,
    {
        if n == 0 {
            post == pre
        } else {
            pre.queue@.len() > 0 && exists|popped: App, stepped: App|
                App::queue_popped(pre, popped) && #[trigger] App::step_spec(
                    popped,
                    pre.queue@[0],
                    stepped,
                ) && App::steps_from(stepped, post, (n - 1) as nat)
        }
    }

    /// The whole drain: `post` is reached from `pre` by processing the
    /// queued commands in order, follow-ups re-entering the same queue,
    /// until the queue is empty.
    pub open spec fn drained_spec(pre: App, post: App) -> bool {
        exists|n: nat| #[trigger] App::steps_from(pre, post, n) && post.queue@.len() == 0
    }


    /// In a queue whose total weight is at most seven, every command has
    /// rank zero: a single command of rank one or more already weighs
    /// eight.
    proof fn lemma_small_weight_all_rank0(s: Seq<Action>)
        requires
            queue_weight(s) <= 7,
        ensures
            forall|i: int| 0 <= i < s.len() ==> (#[trigger] s[i])@.rank() == 0,
        decreases s.len(),
    {
        if s.len() > 0 {
            if s[0]@.rank() >= 1 {
                lemma_pow8_mono(1, s[0]@.rank());
                lemma_pow8_pos(s[0]@.rank());
                assert(action_weight(s[0]@) >= 8);
                assert(false);
            }
            App::lemma_small_weight_all_rank0(s.drop_first());
            assert(forall|i: int|
                0 <= i < s.len() ==> (#[trigger] s[i]) == if i == 0 {
                    s[0]
                } else {
                    s.drop_first()[i - 1]
                });
        }
    }

    /// Draining commands of rank zero never moves the active tab: a tab
    /// change ranks one, so none can be queued or arise.
    proof fn lemma_rank0_steps_keep_mode(pre: App, post: App, n: nat)
        requires
            App::steps_from(pre, post, n),
            forall|i: int| 0 <= i < pre.queue@.len() ==> (#[trigger] pre.queue@[i])@.rank() == 0,
        ensures
            post.mode == pre.mode,
        decreases n,
    {
        if n != 0 {
            let (popped, stepped): (App, App) = choose|popped: App, stepped: App|
                App::queue_popped(pre, popped) && #[trigger] App::step_spec(
                    popped,
                    pre.queue@[0],
                    stepped,
                ) && App::steps_from(stepped, post, (n - 1) as nat);
            let a = pre.queue@[0];
            assert(a@.rank() == 0);
            assert(!(a@ matches ActionV::TabChange(_)));
            assert(stepped.mode == popped.mode);
            assert(stepped.queue@ == popped.queue@);
            assert(forall|i: int|
                0 <= i < popped.queue@.len() ==> (#[trigger] popped.queue@[i])
                    == pre.queue@[i + 1]);
            App::lemma_rank0_steps_keep_mode(stepped, post, (n - 1) as nat);
        }
    }

    /// Cycling tabs through the queue: draining a queue that holds one
    /// `NextTab` command leaves the active tab at the cyclic successor of
    /// the tab that was active — the re-enqueued tab change is processed
    /// later in the same drain, and nothing that follows it moves the tab
    /// again.
    pub proof fn lemma_next_tab_drain(pre: App, post: App)
        requires
            App::drained_spec(pre, post),
            pre.queue@.len() == 1,
            pre.queue@[0]@ == ActionV::NextTab,
        ensures
            post.mode == pre.mode.next_spec(),
    {
        let n = choose|n: nat| #[trigger] App::steps_from(pre, post, n) && post.queue@.len() == 0;
        assert(n != 0);
        let (popped1, s1): (App, App) = choose|popped1: App, s1: App|
            App::queue_popped(pre, popped1) && #[trigger] App::step_spec(
                popped1,
                pre.queue@[0],
                s1,
            ) && App::steps_from(s1, post, (n - 1) as nat);
        assert(popped1.queue@.len() == 0);
        assert(s1.mode == pre.mode);
        let next_change = Action::TabChange(pre.mode.next_spec());
        assert(s1.queue@ == popped1.queue@.push(next_change));
        assert(s1.queue@.len() == 1 && s1.queue@[0] == next_change);
        assert((n - 1) as nat != 0);
        let (popped2, s2): (App, App) = choose|popped2: App, s2: App|
            App::queue_popped(s1, popped2) && #[trigger] App::step_spec(
                popped2,
                s1.queue@[0],
                s2,
            ) && App::steps_from(s2, post, ((n - 1) as nat - 1) as nat);
        assert(popped2.queue@.len() == 0);
        assert(queue_weight(popped2.queue@) == 0);
        assert(next_change@ == ActionV::TabChange(pre.mode.next_spec()));
        assert(s2.mode == pre.mode.next_spec());
        assert(next_change@.rank() == 1);
        assert(queue_weight(s2.queue@) <= 7 * pow8(0));
        App::lemma_small_weight_all_rank0(s2.queue@);
        App::lemma_rank0_steps_keep_mode(s2, post, ((n - 1) as nat - 1) as nat);
    }

    /// A fresh loop state over the given keybinding table: the fixed
    /// registry, an empty queue, the startup tab, an empty database, and
    /// no pending keys.  Nothing is wired to the persistence handle yet.
    pub fn new(table: KeyTable) -> (r: App)
        requires
            table_wf(table@),
        ensures
            r.wf(),
            r.queue@.len() == 0,
            r.mode == Mode::Posts,
            !r.should_quit,
            !r.should_suspend,
            !r.pending_render,
            r.buffer@.len() == 0,
            r.table == table,
            r.db.posts.records@.len() == 0,
            r.db.users.records@.len() == 0,
            forall|i: int|
                0 <= i < r.components@.len() ==> match #[trigger] r.components@[i] {
                    Component::List(c) => !c.db_wired,
                    Component::Edit(c) => !c.db_wired,
                    _ => true,
                },
    {
        let mode = Mode::Posts;
        let mut components: Vec<Component> = Vec::new();
        components.push(Component::TabBar(TabBar::new(mode)));
        let mut footer = Footer::new();
        footer.register_config_handler(table.clone());
        components.push(Component::Footer(footer));
        components.push(
            Component::List(CrudList::new(CrudData::new(Entity::Post), Mode::Posts)),
        );
        components.push(
            Component::Edit(CrudEdit::new(CrudRow::empty(Entity::Post), Mode::Posts)),
        );
        components.push(
            Component::List(CrudList::new(CrudData::new(Entity::User), Mode::Users)),
        );
        components.push(
            Component::Edit(CrudEdit::new(CrudRow::empty(Entity::User), Mode::Users)),
        );
        App {
            components,
            queue: VecDeque::new(),
            mode,
            should_quit: false,
            should_suspend: false,
            pending_render: false,
            buffer: KeyBuffer::new(),
            table,
            db: Db::new(),
        }
    }

    /// Wires the shared persistence handle into every component, as the
    /// startup sequence does once the connection is established.
    pub fn connect(&mut self)
        requires
            old(self).wf(),
        ensures
            final(self).wf(),
            final(self).components@.len() == old(self).components@.len(),
            forall|i: int|
                0 <= i < old(self).components@.len() ==> final(self).components@[i]
                    == Component::wired(#[trigger] old(self).components@[i]),
            final(self).queue == old(self).queue,
            final(self).mode == old(self).mode,
            final(self).db == old(self).db,
            final(self).table == old(self).table,
            final(self).buffer == old(self).buffer,
            final(self).should_quit == old(self).should_quit,
            final(self).should_suspend == old(self).should_suspend,
            final(self).pending_render == old(self).pending_render,
    {
        let n = self.components.len();
        let mut i: usize = 0;
        while i < n
            invariant
                i <= n,
                n == self.components@.len(),
                n == old(self).components@.len(),
                forall|j: int|
                    0 <= j < i ==> self.components@[j] == Component::wired(
                        #[trigger] old(self).components@[j],
                    ),
                forall|j: int| i <= j < n ==> self.components@[j] == old(self).components@[j],
                self.queue == old(self).queue,
                self.mode == old(self).mode,
                self.db == old(self).db,
                self.table == old(self).table,
                self.buffer == old(self).buffer,
                self.should_quit == old(self).should_quit,
                self.should_suspend == old(self).should_suspend,
                self.pending_render == old(self).pending_render,
            decreases n - i,
        {
            let mut c = Component::Footer(Footer::new());
            self.components.set_and_swap(i, &mut c);
            c.register_db_handler();
            self.components.set_and_swap(i, &mut c);
            i = i + 1;
        }
        proof {
            assert(App::registry_wf(self.components@));
            assert(forall|j: int|
                0 <= j < self.components@.len() ==> (#[trigger] self.components@[j]).wf());
        }
    }

    /// Appends one command to the queue.
    pub fn enqueue(&mut self, a: Action)
        ensures
            *final(self) == (App { queue: final(self).queue, ..*old(self) }),
            final(self).queue@ == old(self).queue@.push(a),
    {
        self.queue.push_back(a);
    }

    /// Processes one command: applies its loop-level effect, then routes
    /// it to exactly the components the dispatch rule selects — those
    /// currently focused, plus every component when the command is
    /// focus-changing — collecting their follow-up commands and surfaced
    /// failures onto the queue.
    ///
    /// The contract carries the two dispatch laws.  Focus gating: under a
    /// non-focus-changing command, an unfocused component is untouched.
    /// Target isolation: under a focus-changing command, a record view
    /// for a tab other than the targeted one keeps its data unchanged,
    /// and of its state only a list view's focus flag can drop, on a tab
    /// change away from its tab.
    pub fn process_action(&mut self, a: Action)
        requires
            old(self).wf(),
        ensures
            final(self).wf(),
            final(self).table == old(self).table,
            final(self).mode == (match a@ {
                ActionV::TabChange(m) => m,
                _ => old(self).mode,
            }),
            final(self).should_quit == (old(self).should_quit || a@ == ActionV::Quit),
            final(self).should_suspend == (if a@ == ActionV::Suspend {
                true
            } else if a@ == ActionV::Resume {
                false
            } else {
                old(self).should_suspend
            }),
            final(self).pending_render == (old(self).pending_render || a@ == ActionV::Render || (
            a@ matches ActionV::Resize(_, _))),
            (a@ == ActionV::Tick ==> final(self).buffer@.len() == 0),
            (a@ != ActionV::Tick ==> final(self).buffer == old(self).buffer),
            old(self).queue@.is_prefix_of(final(self).queue@),
            a@.rank() == 0 ==> final(self).queue@ == old(self).queue@,
            a@.rank() >= 1 ==> queue_weight(final(self).queue@) <= queue_weight(old(self).queue@)
                + 7 * pow8((a@.rank() - 1) as nat),
            final(self).components@.len() == old(self).components@.len(),
            forall|i: int|
                0 <= i < old(self).components@.len() ==> App::same_slot(
                    #[trigger] old(self).components@[i],
                    final(self).components@[i],
                ),
            forall|i: int|
                0 <= i < old(self).components@.len() && !(#[trigger] old(self).components@[i]).focused_spec() && !a@.is_focus_changed_spec() ==> final(self).components@[i] == old(self).components@[i],
            forall|i: int|
                0 <= i < old(self).components@.len() && a@.is_focus_changed_spec() && (match (
                #[trigger] old(self).components@[i]).declared_mode() {
                    Some(dm) => dm != a@.target_mode(),
                    None => false,
                }) ==> Component::isolated(old(self).components@[i], a@, final(self).components@[i]),
            a@.is_focus_changed_spec() ==> final(self).db == old(self).db,
            forall|i: int|
                a@.is_focus_changed_spec() && 0 <= i < old(self).components@.len()
                    ==> #[trigger] Component::focus_step_spec(
                    old(self).components@[i],
                    old(self).db,
                    a@,
                    final(self).components@[i],
                ),
            a@ == ActionV::NextTab ==> final(self).queue@ == old(self).queue@.push(
                Action::TabChange(old(self).mode.next_spec()),
            ),
            a@.is_loop_only() ==> final(self).db == old(self).db && (forall|i: int|
                0 <= i < old(self).components@.len() ==> final(self).components@[i] == #[trigger] old(self).components@[i]),
            App::step_spec(*old(self), a, *final(self)),
    {
        match &a {
            Action::Tick => {
                self.buffer.clear();
            },
            Action::Quit => {
                self.should_quit = true;
            },
            Action::Suspend => {
                self.should_suspend = true;
            },
            Action::Resume => {
                self.should_suspend = false;
            },
            Action::Resize(_, _) => {
                self.pending_render = true;
            },
            Action::Render => {
                self.pending_render = true;
            },
            Action::TabChange(m) => {
                self.mode = *m;
            },
            Action::NextTab => {
                let next = self.mode.next();
                proof {
                    lemma_queue_weight_push(self.queue@, Action::TabChange(next));
                }
                self.queue.push_back(Action::TabChange(next));
                proof {
                    assert(self.queue@ == old(self).queue@.push(
                        Action::TabChange(old(self).mode.next_spec()),
                    ));
                }
            },
            _ => {},
        }
        let ghost mid = *self;
        let n = self.components.len();
        let mut i: usize = 0;
        while i < n
            invariant
                i <= n,
                n == self.components@.len(),
                n == mid.components@.len(),
                mid.components@ == old(self).components@,
                mid.db == old(self).db,
                forall|j: int|
                    0 <= j < mid.components@.len() ==> (#[trigger] mid.components@[j]).wf(),
                App::registry_wf(mid.components@),
                mid.db.wf(),
                self.db.wf(),
                self.mode == mid.mode,
                self.table == mid.table,
                self.buffer == mid.buffer,
                self.should_quit == mid.should_quit,
                self.should_suspend == mid.should_suspend,
                self.pending_render == mid.pending_render,
                forall|j: int| i <= j < n ==> self.components@[j] == mid.components@[j],
                forall|j: int|
                    0 <= j < n ==> (#[trigger] self.components@[j]).wf() && App::same_slot(
                        mid.components@[j],
                        self.components@[j],
                    ),
                forall|j: int|
                    0 <= j < i && !(#[trigger] mid.components@[j]).focused_spec()
                        && !a@.is_focus_changed_spec() ==> self.components@[j]
                        == mid.components@[j],
                forall|j: int|
                    0 <= j < i && a@.is_focus_changed_spec() && (match (#[trigger] mid
                        .components@[j]).declared_mode() {
                        Some(dm) => dm != a@.target_mode(),
                        None => false,
                    }) ==> Component::isolated(mid.components@[j], a@, self.components@[j]),
                a@.is_focus_changed_spec() ==> self.db == mid.db,
                forall|j: int|
                    a@.is_focus_changed_spec() && 0 <= j < i ==> #[trigger] Component::focus_step_spec(
                        mid.components@[j],
                        mid.db,
                        a@,
                        self.components@[j],
                    ),
                a@ == ActionV::NextTab ==> self.queue@ == mid.queue@,
                a@.is_loop_only() ==> self.db == mid.db && (forall|j: int|
                    0 <= j < n ==> self.components@[j] == #[trigger] mid.components@[j]),
                mid.queue@.is_prefix_of(self.queue@),
                a@.rank() == 0 ==> self.queue@ == mid.queue@,
                a@.rank() >= 1 ==> queue_weight(self.queue@) <= queue_weight(mid.queue@) + i
                    * pow8((a@.rank() - 1) as nat),
            decreases n - i,
        {
            let mut c = Component::Footer(Footer::new());
            self.components.set_and_swap(i, &mut c);
            proof {
                if a@.rank() >= 1 {
                    let p = pow8((a@.rank() - 1) as nat);
                    assert(i * p <= (i + 1) * p) by (nonlinear_arith);
                }
            }
            let ghost c_pre = c;
            let ghost db_pre = self.db;
            let ghost mut rvg: Result<Option<ActionV>, AppError> = Ok(None);
            if c.focused() || a.is_focus_changed() {
                let step = c.update(&a, &mut self.db);
                proof {
                    rvg = match &step {
                        Ok(Some(f)) => Ok(Some(f@)),
                        Ok(None) => Ok(None),
                        Err(e) => Err(*e),
                    };
                    if a@.is_focus_changed_spec() {
                        assert(Component::update_spec(c_pre, db_pre, a@, c, self.db, rvg));
                        assert(self.db.of(Mode::Posts) == db_pre.of(Mode::Posts)
                            && self.db.of(Mode::Tags) == db_pre.of(Mode::Tags)
                            && self.db.of(Mode::Users) == db_pre.of(Mode::Users));
                        assert(self.db == db_pre);
                        assert(rvg == Component::focus_rv(c_pre, a@));
                    }
                    if a@.is_loop_only() {
                        assert(Component::update_spec(c_pre, db_pre, a@, c, self.db, rvg));
                        assert(c == c_pre);
                        assert(self.db.of(Mode::Posts) == db_pre.of(Mode::Posts)
                            && self.db.of(Mode::Tags) == db_pre.of(Mode::Tags)
                            && self.db.of(Mode::Users) == db_pre.of(Mode::Users));
                        assert(self.db == db_pre);
                        assert(rvg == Ok::<Option<ActionV>, AppError>(None));
                    }
                }
                match step {
                    Ok(Some(follow)) => {
                        proof {
                            lemma_queue_weight_push(self.queue@, follow);
                            lemma_pow8_mono(follow@.rank(), (a@.rank() - 1) as nat);
                            let p = pow8((a@.rank() - 1) as nat);
                            assert((i + 1) * p == i * p + p) by (nonlinear_arith);
                        }
                        self.queue.push_back(follow);
                    },
                    Ok(None) => {
                        proof {
                            let p = pow8((a@.rank() - 1) as nat);
                            assert(i * p <= (i + 1) * p) by (nonlinear_arith);
                        }
                    },
                    Err(e) => {
                        let msg = e.message();
                        proof {
                            lemma_queue_weight_push(self.queue@, Action::Error(msg));
                            lemma_pow8_pos((a@.rank() - 1) as nat);
                            let p = pow8((a@.rank() - 1) as nat);
                            assert((i + 1) * p == i * p + p) by (nonlinear_arith);
                        }
                        self.queue.push_back(Action::Error(msg));
                    },
                }
            }
            let ghost c_post = c;
            self.components.set_and_swap(i, &mut c);
            proof {
                assert(self.components@[i as int] == c_post);
                if a@.is_focus_changed_spec() {
                    assert(Component::focus_step_spec(mid.components@[i as int], mid.db, a@,
                        c_post));
                }
                if a@.is_loop_only() {
                    assert(c_post == c_pre);
                }
            }
            i = i + 1;
        }
        proof {
            if a@.rank() >= 1 {
                let p = pow8((a@.rank() - 1) as nat);
                assert(queue_weight(self.queue@) <= queue_weight(mid.queue@) + 6 * p);
                lemma_pow8_pos((a@.rank() - 1) as nat);
                if a@ == ActionV::NextTab {
                    assert(queue_weight(mid.queue@) == queue_weight(old(self).queue@) + pow8(1));
                    assert(pow8(1) <= p) by {
                        lemma_pow8_mono(1, (a@.rank() - 1) as nat);
                    }
                } else {
                    assert(queue_weight(mid.queue@) == queue_weight(old(self).queue@));
                }
            }
        }
    }

    /// Drains the queue to empty, strictly first-in first-out, letting
    /// follow-up commands re-enter the same loop: the final state is
    /// reached from the starting one by processing the queued commands
    /// in order, as [`App::drained_spec`] states.  Terminates because
    /// every processed command outweighs the follow-ups it sets off.
    pub fn drain(&mut self)
        requires
            old(self).wf(),
        ensures
            final(self).wf(),
            final(self).queue@.len() == 0,
            final(self).table == old(self).table,
            final(self).components@.len() == old(self).components@.len(),
            old(self).should_quit ==> final(self).should_quit,
            App::drained_spec(*old(self), *final(self)),
    {
        proof {
            assert(App::steps_from(*old(self), *old(self), 0));
        }
        while self.queue.len() != 0
            invariant
                self.wf(),
                self.table == old(self).table,
                self.components@.len() == old(self).components@.len(),
                old(self).should_quit ==> self.should_quit,
                exists|k: nat| App::steps_from(*old(self), *self, k),
            decreases queue_weight(self.queue@),
        {
            let ghost head = *self;
            let ghost q_pre = self.queue@;
            let a = match self.queue.pop_front() {
                Some(a) => a,
                None => {
                    return ;
                },
            };
            proof {
                assert(self.queue@ =~= q_pre.drop_first());
                assert(queue_weight(q_pre) == action_weight(a@) + queue_weight(self.queue@));
            }
            let ghost popped = *self;
            self.process_action(a);
            proof {
                lemma_pow8_pos(a@.rank());
                if a@.rank() >= 1 {
                    lemma_pow8_pos((a@.rank() - 1) as nat);
                    assert(pow8(a@.rank()) == 8 * pow8((a@.rank() - 1) as nat));
                }
                assert(App::queue_popped(head, popped));
                let k = choose|k: nat| App::steps_from(*old(self), head, k);
                lemma_steps_from_extend(*old(self), head, popped, a, *self, k);
                assert(App::steps_from(*old(self), *self, (k + 1) as nat));
            }
        }
        proof {
            let k = choose|k: nat| App::steps_from(*old(self), *self, k);
            assert(App::steps_from(*old(self), *self, k) && self.queue@.len() == 0);
        }
    }

    /// Feeds one raw key event into the loop: the keybinding resolver
    /// runs first, scoped by the active tab, and its action (if any) is
    /// enqueued; then every focused edit form sees the raw key and its
    /// redraw requests are enqueued.
    pub fn on_key(&mut self, key: KeyPress)
        requires
            old(self).wf(),
        ensures
            final(self).wf(),
            final(self).table == old(self).table,
            final(self).mode == old(self).mode,
            final(self).db == old(self).db,
            final(self).should_quit == old(self).should_quit,
            final(self).should_suspend == old(self).should_suspend,
            final(self).pending_render == old(self).pending_render,
            final(self).buffer@ == step_buffer(old(self).table@, old(self).mode, old(self).buffer@, key),
            old(self).queue@.is_prefix_of(final(self).queue@),
            exists|ev: Option<ActionV>|
                step_emits(old(self).table@, old(self).mode, old(self).buffer@, key, ev) && (match ev {
                    Some(av) => final(self).queue@.len() > old(self).queue@.len() && final(self).queue@[old(self).queue@.len() as int]@ == av,
                    None => true,
                }),
            final(self).components@.len() == old(self).components@.len(),
            forall|i: int|
                0 <= i < old(self).components@.len() ==> match #[trigger] old(self).components@[i] {
                    Component::Edit(c) => final(self).components@[i] matches Component::Edit(pc)
                        && exists|rv: Option<ActionV>| CrudEdit::key_spec(c, key, pc, rv),
                    _ => final(self).components@[i] == old(self).components@[i],
                },
    {
        let ghost pre = *self;
        let emitted = self.buffer.on_key(&self.table, self.mode, key);
        let ghost ev = match &emitted {
            Some(a) => Some(a@),
            None => None::<ActionV>,
        };
        proof {
            assert(step_emits(pre.table@, pre.mode, pre.buffer@, key, ev));
        }
        match emitted {
            Some(a) => {
                self.queue.push_back(a);
            },
            None => {},
        }
        let ghost mid = *self;
        let n = self.components.len();
        let mut i: usize = 0;
        while i < n
            invariant
                i <= n,
                n == self.components@.len(),
                n == mid.components@.len(),
                mid.components@ == old(self).components@,
                forall|j: int|
                    0 <= j < mid.components@.len() ==> (#[trigger] mid.components@[j]).wf(),
                App::registry_wf(mid.components@),
                self.db == mid.db,
                self.mode == mid.mode,
                self.table == mid.table,
                self.buffer == mid.buffer,
                self.should_quit == mid.should_quit,
                self.should_suspend == mid.should_suspend,
                self.pending_render == mid.pending_render,
                forall|j: int| i <= j < n ==> self.components@[j] == mid.components@[j],
                forall|j: int|
                    0 <= j < n ==> (#[trigger] self.components@[j]).wf() && App::same_slot(
                        mid.components@[j],
                        self.components@[j],
                    ),
                forall|j: int|
                    0 <= j < i ==> match #[trigger] mid.components@[j] {
                        Component::Edit(c) => self.components@[j] matches Component::Edit(pc)
                            && exists|rv: Option<ActionV>| CrudEdit::key_spec(c, key, pc, rv),
                        _ => self.components@[j] == mid.components@[j],
                    },
                mid.queue@.is_prefix_of(self.queue@),
            decreases n - i,
        {
            let mut c = Component::Footer(Footer::new());
            self.components.set_and_swap(i, &mut c);
            match &mut c {
                Component::Edit(form) => {
                    match form.handle_key_events(key) {
                        Some(follow) => {
                            self.queue.push_back(follow);
                        },
                        None => {},
                    }
                },
                _ => {},
            }
            self.components.set_and_swap(i, &mut c);
            i = i + 1;
        }
        proof {
            match ev {
                Some(av) => {
                    let idx = pre.queue@.len() as int;
                    assert(mid.queue@[idx]@ == av);
                    assert(self.queue@[idx] == mid.queue@[idx]);
                },
                None => {},
            }
            assert(step_emits(pre.table@, pre.mode, pre.buffer@, key, ev) && (match ev {
                Some(av) => self.queue@.len() > pre.queue@.len() && self.queue@[pre.queue@.len() as int]@ == av,
                None => true,
            }));
        }
    }

    /// Reports and clears the pending redraw request.
    pub fn take_render(&mut self) -> (r: bool)
        ensures
            r == old(self).pending_render,
            *final(self) == (App { pending_render: false, ..*old(self) }),
    {
        let r = self.pending_render;
        self.pending_render = false;
        r
    }
}

} // verus!
