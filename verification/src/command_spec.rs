use vstd::prelude::*;
use vstd::string::*;

use crate::text::{join_range, join_with, lemma_split_rest, split_on_char, split_on_space, split_spaces, text_equals};

verus! {

/// How a command takes its input.
#[derive(Debug, Clone, Copy, PartialEq, Eq, Structural)]
pub enum CommandCallType {
    NoArgs,
    Args,
    NotCallable,
}

/// A command of the tree: the words it is called by, its help text, the
/// names of its subcommands and what runs it.
pub struct CommandSpecNode<H> {
    pub valid_aliases: Vec<String>,
    pub help: String,
    pub children: Vec<String>,
    pub handler: Option<H>,
    pub call_type: CommandCallType,
}

/// A command as a mathematical value.
#[verifier::ext_equal]
pub struct NodeView<H> {
    pub aliases: Seq<Seq<char>>,
    pub help: Seq<char>,
    pub children: Seq<Seq<char>>,
    pub handler: Option<H>,
    pub call_type: CommandCallType,
}

impl<H> View for CommandSpecNode<H> {
    type V = NodeView<H>;

    open spec fn view(&self) -> NodeView<H> {
        NodeView {
            aliases: self.valid_aliases.deep_view(),
            help: self.help@,
            children: self.children.deep_view(),
            handler: self.handler,
            call_type: self.call_type,
        }
    }
}

/// The tree of commands of the text interface, under a root named "root".
/// Each command has a unique name; a command's subcommands are added after it.
pub struct CommandSpec<H> {
    names: Vec<String>,
    nodes: Vec<CommandSpecNode<H>>,
}

/// What a line of input comes to.
#[derive(Debug)]
pub enum CallOutcome<H> {
    /// The word "help" was reached: the help of the whole tree, one level deep.
    Help(Vec<String>),
    /// Run the command's handler with the arguments.
    Run(H, String),
    /// The command cannot run as given: a note on why, if any, and its help.
    Refused(Option<String>, Vec<String>),
}

/// An outcome as a mathematical value.
pub enum OutcomeView<H> {
    Help(Seq<Seq<char>>),
    Run(H, Seq<char>),
    Refused(Option<Seq<char>>, Seq<Seq<char>>),
}

impl<H> View for CallOutcome<H> {
    type V = OutcomeView<H>;

    open spec fn view(&self) -> OutcomeView<H> {
        match self {
            CallOutcome::Help(lines) => OutcomeView::Help(lines.deep_view()),
            CallOutcome::Run(h, args) => OutcomeView::Run(*h, args@),
            CallOutcome::Refused(note, lines) => OutcomeView::Refused(
                match note {
                    Some(n) => Some(n@),
                    None => None,
                },
                lines.deep_view(),
            ),
        }
    }
}

/// The word at `pos`, or the empty word past the end.
pub open spec fn word_at(parts: Seq<Seq<char>>, pos: int) -> Seq<char> {
    if 0 <= pos < parts.len() {
        parts[pos]
    } else {
        Seq::empty()
    }
}

/// The first of the names, or the empty word where there is none.
pub open spec fn first_or_empty(names: Seq<Seq<char>>) -> Seq<char> {
    if names.len() > 0 {
        names[0]
    } else {
        Seq::empty()
    }
}

/// The help line ending of a command whose subcommands are not listed.
pub open spec fn more_help_note() -> Seq<char> {
    " <args> | help (for more information on this command and its subcommands)"@
}

impl<H: Copy> CommandSpec<H> {
    /// The names of the commands, the root first.
    pub closed spec fn names_view(&self) -> Seq<Seq<char>> {
        self.names.deep_view()
    }

    /// The command at a position of the tree.
    pub closed spec fn node_view(&self, i: int) -> NodeView<H> {
        self.nodes@[i]@
    }

    /// The number of commands, the root included.
    pub closed spec fn size(&self) -> nat {
        self.names@.len()
    }

    /// The position of the command with the given name.
    pub open spec fn index_of(&self, name: Seq<char>) -> int {
        choose|i: int| 0 <= i < self.size() && self.names_view()[i] == name
    }

    /// Whether a command of the given name is in the tree.
    pub open spec fn has(&self, name: Seq<char>) -> bool {
        exists|i: int| 0 <= i < self.size() && self.names_view()[i] == name
    }

    /// The tree is well formed: one root named "root" first, which cannot be
    /// called, unique names, and every subcommand present and added after
    /// its parent.
    pub closed spec fn wf(&self) -> bool {
        &&& self.names@.len() == self.nodes@.len()
        &&& self.names@.len() >= 1
        &&& self.names_view()[0] == "root"@
        &&& self.node_view(0).call_type == CommandCallType::NotCallable
        &&& forall|i: int, j: int|
            0 <= i < j < self.size() ==> self.names_view()[i] != self.names_view()[j]
        &&& forall|i: int, k: int|
            #![trigger self.node_view(i).children[k]]
            0 <= i < self.size() && 0 <= k < self.node_view(i).children.len() ==> self.listed_after(
                i,
                self.node_view(i).children[k],
            )
    }

    /// A command named `c` stands after position `i`.
    pub closed spec fn listed_after(&self, i: int, c: Seq<char>) -> bool {
        exists|j: int| i < j < self.size() && self.names_view()[j] == c
    }

    /// Whether the `k`-th subcommand of command `i` answers to `word`.
    pub open spec fn answers(&self, i: int, k: int, word: Seq<char>) -> bool {
        self.node_view(self.index_of(self.node_view(i).children[k])).aliases.contains(word)
    }

    /// No word calls two different subcommands of the same command. The
    /// root's own subcommands are left out: nothing keeps those apart.
    pub open spec fn siblings_disjoint(&self) -> bool {
        forall|i: int, k1: int, k2: int, w: Seq<char>|
            #![trigger self.answers(i, k1, w), self.answers(i, k2, w)]
            1 <= i < self.size() && 0 <= k1 < self.node_view(i).children.len() && 0 <= k2
                < self.node_view(i).children.len() && self.node_view(i).children[k1]
                != self.node_view(i).children[k2] && self.answers(i, k1, w) ==> !self.answers(i, k2, w)
    }

    /// The place in the list of subcommands of command `i`, from `k` on, of
    /// the first one that answers to `word`.
    pub open spec fn first_match(&self, i: int, word: Seq<char>, k: int) -> Option<int>
        decreases self.node_view(i).children.len() - k,
    {
        if k < 0 || k >= self.node_view(i).children.len() {
            None
        } else if self.answers(i, k, word) {
            Some(k)
        } else {
            self.first_match(i, word, k + 1)
        }
    }

    /// Where the words of a line lead from command `i`, reading word `pos`
    /// next: `None` where a command that answers to "help" is reached, else
    /// the command reached and the position of the first word it was not
    /// called by.
    pub open spec fn resolve(&self, i: int, parts: Seq<Seq<char>>, pos: int) -> Option<(int, int)>
        decreases self.size() - i,
    {
        if !(0 <= i < self.size()) {
            Some((i, pos))
        } else if self.node_view(i).aliases.contains("help"@) {
            None
        } else {
            match self.first_match(i, word_at(parts, pos), 0) {
                Some(k) => {
                    let c = self.index_of(self.node_view(i).children[k]);
                    if i < c < self.size() {
                        self.resolve(c, parts, pos + 1)
                    } else {
                        Some((i, pos))
                    }
                },
                None => Some((i, pos)),
            }
        }
    }

    /// The help of command `i` and, `layers` levels deep, of its subcommands.
    pub open spec fn help_lines(&self, i: int, prefix: Seq<char>, layers: nat) -> Seq<Seq<char>>
        decreases layers, 0nat,
    {
        let node = self.node_view(i);
        let head = prefix + " "@ + join_with(node.aliases, " | "@) + node.help;
        if layers > 0 {
            let sub_prefix = prefix + " "@ + first_or_empty(node.aliases) + " "@;
            seq![head] + self.children_help(
                node.children,
                sub_prefix,
                (layers - 1) as nat,
                node.children.len(),
            )
        } else if node.children.len() > 0 {
            seq![head, prefix + " "@ + join_with(node.aliases, " | "@) + more_help_note()]
        } else {
            seq![head]
        }
    }

    /// The help of the first `n` of the commands named in `children`, one
    /// after the other.
    pub open spec fn children_help(
        &self,
        children: Seq<Seq<char>>,
        prefix: Seq<char>,
        layers: nat,
        n: nat,
    ) -> Seq<Seq<char>>
        decreases layers, n + 1,
    {
        if n == 0 {
            Seq::empty()
        } else {
            self.children_help(children, prefix, layers, (n - 1) as nat) + self.help_lines(
                self.index_of(children[n - 1]),
                prefix,
                layers,
            )
        }
    }

    /// The help of the whole tree, `layers` levels below the root.
    pub open spec fn help_spec(&self, layers: nat) -> Seq<Seq<char>> {
        self.help_lines(0, Seq::empty(), layers)
    }

    /// What command `i` does with the words of a line from `pos` on.
    pub open spec fn handle_spec(&self, i: int, parts: Seq<Seq<char>>, pos: int) -> OutcomeView<H> {
        let node = self.node_view(i);
        let before = if pos >= 1 { pos - 1 } else { 0 };
        let lines = self.help_lines(i, join_with(parts.subrange(0, before), " "@), 3);
        match node.call_type {
            CommandCallType::NoArgs => if parts.len() > pos {
                OutcomeView::Refused(Some("Command does not take arguments"@), lines)
            } else {
                match node.handler {
                    Some(h) => OutcomeView::Run(h, Seq::empty()),
                    None => OutcomeView::Refused(None, lines),
                }
            },
            CommandCallType::Args => if parts.len() <= pos {
                OutcomeView::Refused(Some("Command requires arguments"@), lines)
            } else {
                match node.handler {
                    Some(h) => OutcomeView::Run(h, join_with(parts.subrange(pos, parts.len() as int), " "@)),
                    None => OutcomeView::Refused(None, lines),
                }
            },
            CommandCallType::NotCallable => OutcomeView::Refused(None, lines),
        }
    }

    /// What a line of input comes to.
    pub open spec fn outcome(&self, input: Seq<char>) -> OutcomeView<H> {
        let parts = split_on_space(input);
        match self.resolve(0, parts, 0) {
            None => OutcomeView::Help(self.help_spec(1)),
            Some((i, pos)) => self.handle_spec(i, parts, pos),
        }
    }

    /// The words of the line do not run past their end where the command
    /// reached reads them: it takes arguments and stands at most at the end,
    /// or it is shown with its help and stands at most one word past the end.
    pub open spec fn in_bounds(&self, input: Seq<char>) -> bool {
        let parts = split_on_space(input);
        match self.resolve(0, parts, 0) {
            None => true,
            Some((i, pos)) => match self.node_view(i).call_type {
                CommandCallType::Args => pos <= parts.len(),
                CommandCallType::NoArgs => self.node_view(i).handler is Some || pos <= parts.len() + 1,
                CommandCallType::NotCallable => pos <= parts.len() + 1,
            },
        }
    }

    /// In a well-formed tree a command is found at its own position.
    pub proof fn lemma_index_of(&self, j: int)
        requires
            self.wf(),
            0 <= j < self.size(),
        ensures
            self.index_of(self.names_view()[j]) == j,
            self.has(self.names_view()[j]),
    {
        reveal(CommandSpec::wf);
        let k = self.index_of(self.names_view()[j]);
        assert(0 <= k < self.size() && self.names_view()[k] == self.names_view()[j]);
        if k < j {
        } else if k > j {
        }
    }

    /// The position of the command with the given name, if any.
    fn find(&self, name: &str) -> (r: Option<usize>)
        requires
            self.wf(),
        ensures
            r is None <==> !self.has(name@),
            r matches Some(i) ==> i < self.size() && i == self.index_of(name@),
    {
        let n = self.names.len();
        for i in 0..n
            invariant
                self.wf(),
                n == self.size(),
                forall|k: int| 0 <= k < i ==> self.names_view()[k] != name@,
        {
            if text_equals(self.names[i].as_str(), name) {
                proof {
                    self.lemma_index_of(i as int);
                }
                return Some(i);
            }
        }
        None
    }

    /// Adds a command under the given name, as a subcommand of `parent` (of the
    /// root when there is none).
    pub fn add(
        self,
        name: &str,
        valid_aliases: Vec<&str>,
        help: &str,
        handler: Option<H>,
        call_type: CommandCallType,
        parent: Option<&str>,
    ) -> (r: CommandSpec<H>)
        requires
            self.wf(),
            !self.has(name@),
            parent matches Some(p) ==> self.has(p@) && (forall|k: int, a: int|
                #![trigger self.node_view(self.index_of(p@)).children[k], valid_aliases@[a]]
                0 <= k < self.node_view(self.index_of(p@)).children.len() && 0 <= a
                    < valid_aliases@.len() ==> !self.node_view(
                    self.index_of(self.node_view(self.index_of(p@)).children[k]),
                ).aliases.contains(valid_aliases@[a]@)),
        ensures
            r.wf(),
            r.size() == self.size() + 1,
            r.names_view() == self.names_view().push(name@),
            r.node_view(self.size() as int) == (NodeView {
                aliases: valid_aliases@.map_values(|a: &str| a@),
                help: help@,
                children: Seq::<Seq<char>>::empty(),
                handler,
                call_type,
            }),
            ({
                let pi = match parent {
                    Some(p) => self.index_of(p@),
                    None => 0,
                };
                &&& r.node_view(pi) == (NodeView {
                    children: self.node_view(pi).children.push(name@),
                    ..self.node_view(pi)
                })
                &&& forall|i: int|
                    0 <= i < self.size() && i != pi ==> #[trigger] r.node_view(i) == self.node_view(i)
            }),
            self.siblings_disjoint() ==> r.siblings_disjoint(),
    {
        let mut this = self;
        let ghost old_names = this.names_view();
        let ghost old_nodes = this.nodes@;
        let pi: usize = match parent {
            Some(p) => match this.find(p) {
                Some(i) => i,
                None => {
                    proof {
                        assert(false);
                    }
                    0
                },
            },
            None => 0,
        };
        let mut aliases: Vec<String> = Vec::new();
        let na = valid_aliases.len();
        for i in 0..na
            invariant
                na == valid_aliases@.len(),
                aliases.deep_view() == valid_aliases@.map_values(|a: &str| a@).take(i as int),
        {
            let ghost before = aliases.deep_view();
            let alias = String::from_str(valid_aliases[i]);
            aliases.push(alias);
            assert(aliases.deep_view() =~= before.push(valid_aliases@[i as int]@));
            assert(aliases.deep_view() =~= valid_aliases@.map_values(|a: &str| a@).take(i + 1));
        }
        assert(valid_aliases@.map_values(|a: &str| a@).take(na as int) =~= valid_aliases@.map_values(
            |a: &str| a@,
        ));
        let node = CommandSpecNode {
            valid_aliases: aliases,
            help: String::from_str(help),
            children: Vec::new(),
            handler,
            call_type,
        };
        assert(node@.children =~= Seq::<Seq<char>>::empty());
        let ghost new_node = node@;
        let ghost new_index = old_nodes.len() as int;
        this.names.push(String::from_str(name));
        this.nodes.push(node);
        assert(this.names_view() =~= old_names.push(name@));
        let mut parent_node = this.nodes.remove(pi);
        let ghost pv = parent_node@;
        let ghost before_children = parent_node.children.deep_view();
        parent_node.children.push(String::from_str(name));
        assert(parent_node.children.deep_view() =~= before_children.push(name@));
        this.nodes.insert(pi, parent_node);
        assert(this.nodes@ =~= old_nodes.push(this.nodes@[new_index]).update(pi as int, this.nodes@[pi as int]));
        proof {
            reveal(CommandSpec::wf);
            assert(this.node_view(new_index) == new_node);
            assert(this.node_view(pi as int) == (NodeView { children: pv.children.push(name@), ..pv }));
            assert forall|i: int, k: int|
                #![trigger this.node_view(i).children[k]]
                0 <= i < this.size() && 0 <= k < this.node_view(i).children.len() implies this.listed_after(
                i,
                this.node_view(i).children[k],
            ) by {
                if i == pi && k == this.node_view(i).children.len() - 1 {
                    assert(this.names_view()[new_index] == name@);
                } else {
                    assert(this.node_view(i).children[k] == self.node_view(i).children[k]);
                    assert(self.listed_after(i, self.node_view(i).children[k]));
                    let j = choose|j: int|
                        i < j < self.size() && self.names_view()[j] == self.node_view(i).children[k];
                    assert(this.names_view()[j] == self.names_view()[j]);
                }
            }
            assert forall|i: int, j: int| 0 <= i < j < this.size() implies this.names_view()[i]
                != this.names_view()[j] by {
                if j == new_index {
                    assert(self.names_view()[i] == this.names_view()[i]);
                }
            }
            assert(this.wf());
            if self.siblings_disjoint() {
                Self::lemma_add_keeps_siblings_disjoint(&self, &this, name@, valid_aliases@.map_values(|a: &str| a@), pi as int);
            }
        }
        this
    }

    /// Adding a command `name` with the given aliases under command `pi`
    /// keeps the subcommands of every command apart, where the new aliases
    /// are apart from those of `pi`'s other subcommands (or `pi` is the root).
    proof fn lemma_add_keeps_siblings_disjoint(
        old: &Self,
        new: &Self,
        name: Seq<char>,
        aliases: Seq<Seq<char>>,
        pi: int,
    )
        requires
            old.wf(),
            new.wf(),
            old.siblings_disjoint(),
            !old.has(name),
            0 <= pi < old.size(),
            new.size() == old.size() + 1,
            new.names_view() == old.names_view().push(name),
            new.node_view(old.size() as int).aliases == aliases,
            new.node_view(old.size() as int).children.len() == 0,
            new.node_view(pi) == (NodeView { children: old.node_view(pi).children.push(name), ..old.node_view(pi) }),
            forall|i: int| 0 <= i < old.size() && i != pi ==> #[trigger] new.node_view(i) == old.node_view(i),
            pi != 0 ==> forall|k: int, a: int|
                #![trigger old.node_view(pi).children[k], aliases[a]]
                0 <= k < old.node_view(pi).children.len() && 0 <= a < aliases.len()
                    ==> !old.node_view(old.index_of(old.node_view(pi).children[k])).aliases.contains(aliases[a]),
        ensures
            new.siblings_disjoint(),
    {
        let n = old.size() as int;
        // a name of the old tree keeps its place, and its aliases
        assert forall|c: Seq<char>| #[trigger] old.has(c) implies new.index_of(c) == old.index_of(c)
            && new.node_view(new.index_of(c)).aliases == old.node_view(old.index_of(c)).aliases by {
            let j = choose|j: int| 0 <= j < old.size() && old.names_view()[j] == c;
            old.lemma_index_of(j);
            assert(new.names_view()[j] == c);
            new.lemma_index_of(j);
        }
        new.lemma_index_of(n);
        assert(new.names_view()[n] == name);
        assert forall|i: int, k1: int, k2: int, w: Seq<char>|
            1 <= i < new.size() && 0 <= k1 < new.node_view(i).children.len() && 0 <= k2
                < new.node_view(i).children.len() && new.node_view(i).children[k1]
                != new.node_view(i).children[k2] && #[trigger] new.answers(i, k1, w)
                implies !#[trigger] new.answers(i, k2, w) by {
            if i < n {
                let oc = old.node_view(i).children;
                assert forall|k: int| 0 <= k < oc.len() implies new.node_view(i).children[k] == oc[k]
                    && #[trigger] new.answers(i, k, w) == old.answers(i, k, w) by {
                    old.lemma_child_index(i, k);
                }
                if k1 < oc.len() && k2 < oc.len() {
                    assert(old.answers(i, k1, w));
                } else if k2 < oc.len() {
                    // k1 is the new command
                    assert(i == pi);
                    let a = choose|a: int| 0 <= a < aliases.len() && aliases[a] == w;
                    assert(new.node_view(i).children[k1] == name);
                    assert(!old.node_view(old.index_of(oc[k2])).aliases.contains(aliases[a]));
                } else if k1 < oc.len() {
                    assert(i == pi);
                    assert(new.node_view(i).children[k2] == name);
                    if new.answers(i, k2, w) {
                        let a = choose|a: int| 0 <= a < aliases.len() && aliases[a] == w;
                        assert(!old.node_view(old.index_of(oc[k1])).aliases.contains(aliases[a]));
                        assert(old.answers(i, k1, w));
                    }
                } else {
                    assert(i == pi);
                }
            }
        }
    }

    /// A tree with only the root, which is not callable.
    pub fn new() -> (spec_tree: CommandSpec<H>)
        ensures
            spec_tree.wf(),
            spec_tree.size() == 1,
            spec_tree.names_view() == seq!["root"@],
            spec_tree.siblings_disjoint(),
            spec_tree.node_view(0).aliases.len() == 0,
            spec_tree.node_view(0).help == "REVERB commands:"@,
            spec_tree.node_view(0).children.len() == 0,
            spec_tree.node_view(0).handler is None,
            spec_tree.node_view(0).call_type == CommandCallType::NotCallable,
    {
        let mut names: Vec<String> = Vec::new();
        names.push(String::from_str("root"));
        let mut nodes: Vec<CommandSpecNode<H>> = Vec::new();
        nodes.push(
            CommandSpecNode {
                valid_aliases: Vec::new(),
                help: String::from_str("REVERB commands:"),
                children: Vec::new(),
                handler: None,
                call_type: CommandCallType::NotCallable,
            },
        );
        let t = CommandSpec { names, nodes };
        proof {
            reveal(CommandSpec::wf);
            assert(t.names_view() =~= seq!["root"@]);
            assert(t.node_view(0).aliases =~= Seq::<Seq<char>>::empty());
            assert(t.node_view(0).children =~= Seq::<Seq<char>>::empty());
        }
        t
    }

    proof fn lemma_child_index(&self, i: int, k: int)
        requires
            self.wf(),
            0 <= i < self.size(),
            0 <= k < self.node_view(i).children.len(),
        ensures
            i < self.index_of(self.node_view(i).children[k]) < self.size(),
            self.names_view()[self.index_of(self.node_view(i).children[k])] == self.node_view(
                i,
            ).children[k],
            self.has(self.node_view(i).children[k]),
    {
        reveal(CommandSpec::wf);
        let c = self.node_view(i).children[k];
        assert(self.listed_after(i, c));
        let j = choose|j: int| i < j < self.size() && self.names_view()[j] == c;
        self.lemma_index_of(j);
    }

    proof fn lemma_first_match_skip(&self, i: int, word: Seq<char>, k: int)
        requires
            0 <= k <= self.node_view(i).children.len(),
            forall|m: int| 0 <= m < k ==> !self.answers(i, m, word),
        ensures
            self.first_match(i, word, 0) == self.first_match(i, word, k),
        decreases k,
    {
        if k > 0 {
            self.lemma_first_match_skip(i, word, k - 1);
        }
    }

    /// The position of the first subcommand of command `i` that answers to `word`.
    fn child_for(&self, i: usize, word: &str) -> (r: Option<usize>)
        requires
            self.wf(),
            i < self.size(),
        ensures
            match self.first_match(i as int, word@, 0) {
                Some(k) => r == Some(self.index_of(self.node_view(i as int).children[k]) as usize),
                None => r is None,
            },
    {
        proof {
            reveal(CommandSpec::wf);
        }
        let n = self.nodes[i].children.len();
        for k in 0..n
            invariant
                self.wf(),
                i < self.size(),
                n == self.node_view(i as int).children.len(),
                forall|m: int| 0 <= m < k ==> !self.answers(i as int, m, word@),
        {
            proof {
                reveal(CommandSpec::wf);
                self.lemma_child_index(i as int, k as int);
            }
            let c = match self.find(self.nodes[i].children[k].as_str()) {
                Some(c) => c,
                None => {
                    proof {
                        assert(false);
                    }
                    0
                },
            };
            if has_alias(&self.nodes[c].valid_aliases, word) {
                proof {
                    self.lemma_first_match_skip(i as int, word@, k as int);
                }
                return Some(c);
            }
        }
        proof {
            self.lemma_first_match_skip(i as int, word@, n as int);
        }
        None
    }

    /// Appends the help of command `i`, `layers` levels deep, to `out`.
    fn push_help(&self, i: usize, prefix: &str, layers: usize, out: &mut Vec<String>)
        requires
            self.wf(),
            i < self.size(),
        ensures
            final(out).deep_view() == old(out).deep_view() + self.help_lines(
                i as int,
                prefix@,
                layers as nat,
            ),
        decreases layers,
    {
        proof {
            reveal(CommandSpec::wf);
        }
        let ghost start = out.deep_view();
        let node = &self.nodes[i];
        let joined = join_range(&node.valid_aliases, 0, node.valid_aliases.len(), " | ");
        assert(node.valid_aliases.deep_view().subrange(0, node.valid_aliases@.len() as int)
            =~= node.valid_aliases.deep_view());
        let mut head = String::new();
        head.append(prefix);
        head.append(" ");
        head.append(joined.as_str());
        head.append(node.help.as_str());
        let ghost hv = head@;
        out.push(head);
        assert(out.deep_view() =~= start + seq![hv]);
        if layers > 0 {
            let mut sub = String::new();
            sub.append(prefix);
            sub.append(" ");
            if node.valid_aliases.len() > 0 {
                sub.append(node.valid_aliases[0].as_str());
            } else {
                proof {
                    reveal_strlit("");
                }
            }
            sub.append(" ");
            let n = node.children.len();
            let ghost children = self.node_view(i as int).children;
            for k in 0..n
                invariant
                    self.wf(),
                    i < self.size(),
                    layers > 0,
                    n == children.len(),
                    children == self.node_view(i as int).children,
                    node == &self.nodes@[i as int],
                    out.deep_view() == start + seq![hv] + self.children_help(
                        children,
                        sub@,
                        (layers - 1) as nat,
                        k as nat,
                    ),
            {
                proof {
                    self.lemma_child_index(i as int, k as int);
                }
                let c = match self.find(node.children[k].as_str()) {
                    Some(c) => c,
                    None => {
                        proof {
                            assert(false);
                        }
                        0
                    },
                };
                let ghost before = out.deep_view();
                self.push_help(c, sub.as_str(), layers - 1, out);
                assert(out.deep_view() =~= start + seq![hv] + self.children_help(
                    children,
                    sub@,
                    (layers - 1) as nat,
                    (k + 1) as nat,
                ));
            }
            assert(sub@ == prefix@ + " "@ + first_or_empty(self.node_view(i as int).aliases) + " "@);
        } else if node.children.len() > 0 {
            let mut more = String::new();
            more.append(prefix);
            more.append(" ");
            more.append(joined.as_str());
            more.append(" <args> | help (for more information on this command and its subcommands)");
            let ghost mv = more@;
            out.push(more);
            assert(out.deep_view() =~= start + seq![hv, mv]);
        }
    }

    /// The help of the whole tree, `num_layers` levels below the root, line
    /// by line.
    pub fn print_help(&self, num_layers: usize) -> (lines: Vec<String>)
        requires
            self.wf(),
        ensures
            lines.deep_view() == self.help_spec(num_layers as nat),
    {
        let mut lines: Vec<String> = Vec::new();
        let empty = String::new();
        proof {
            reveal(CommandSpec::wf);
        }
        self.push_help(0, empty.as_str(), num_layers, &mut lines);
        assert(lines.deep_view() =~= self.help_spec(num_layers as nat));
        lines
    }

    /// What command `i` does with the words from `pos` on.
    fn handle(&self, i: usize, parts: &Vec<String>, pos: usize) -> (r: CallOutcome<H>)
        requires
            self.wf(),
            i < self.size(),
            match self.node_view(i as int).call_type {
                CommandCallType::Args => pos <= parts@.len(),
                CommandCallType::NoArgs => self.node_view(i as int).handler is Some || pos
                    <= parts@.len() + 1,
                CommandCallType::NotCallable => pos <= parts@.len() + 1,
            },
        ensures
            r@ == self.handle_spec(i as int, parts.deep_view(), pos as int),
    {
        proof {
            reveal(CommandSpec::wf);
        }
        let node = &self.nodes[i];
        let n = parts.len();
        let before: usize = if pos >= 1 { pos - 1 } else { 0 };
        match node.call_type {
            CommandCallType::NoArgs => {
                if n > pos {
                    let lines = self.refusal_help(i, parts, before);
                    CallOutcome::Refused(Some(String::from_str("Command does not take arguments")), lines)
                } else {
                    match node.handler {
                        Some(h) => {
                            let args = String::new();
                            CallOutcome::Run(h, args)
                        },
                        None => CallOutcome::Refused(None, self.refusal_help(i, parts, before)),
                    }
                }
            },
            CommandCallType::Args => {
                let args = join_range(parts, pos, n, " ");
                if n <= pos {
                    let lines = self.refusal_help(i, parts, before);
                    CallOutcome::Refused(Some(String::from_str("Command requires arguments")), lines)
                } else {
                    match node.handler {
                        Some(h) => CallOutcome::Run(h, args),
                        None => CallOutcome::Refused(None, self.refusal_help(i, parts, before)),
                    }
                }
            },
            CommandCallType::NotCallable => CallOutcome::Refused(None, self.refusal_help(i, parts, before)),
        }
    }

    /// The help shown where command `i` refuses a line: three levels deep,
    /// under the words that led to its parent.
    fn refusal_help(&self, i: usize, parts: &Vec<String>, before: usize) -> (lines: Vec<String>)
        requires
            self.wf(),
            i < self.size(),
            before <= parts@.len(),
        ensures
            lines.deep_view() == self.help_lines(
                i as int,
                join_with(parts.deep_view().subrange(0, before as int), " "@),
                3,
            ),
    {
        let prefix = join_range(parts, 0, before, " ");
        let mut lines: Vec<String> = Vec::new();
        self.push_help(i, prefix.as_str(), 3, &mut lines);
        assert(lines.deep_view() =~= self.help_lines(
            i as int,
            join_with(parts.deep_view().subrange(0, before as int), " "@),
            3,
        ));
        lines
    }

    /// Follows the words of a line from command `i`, reading word `pos` next:
    /// `None` where a command that answers to "help" is reached, else the
    /// command reached and the position of the first word it was not called
    /// by.
    fn resolve_from(&self, i: usize, parts: &Vec<String>, pos: usize) -> (r: Option<(usize, usize)>)
        requires
            self.wf(),
            i < self.size(),
            pos <= i,
        ensures
            match self.resolve(i as int, parts.deep_view(), pos as int) {
                None => r is None,
                Some((j, p)) => r matches Some((j2, p2)) && j2 == j && p2 == p && j2 < self.size() && p2
                    <= j2,
            },
        decreases self.size() - i,
    {
        proof {
            reveal(CommandSpec::wf);
        }
        if has_alias(&self.nodes[i].valid_aliases, "help") {
            return None;
        }
        let empty = String::new();
        let word: &str = if pos < parts.len() {
            parts[pos].as_str()
        } else {
            empty.as_str()
        };
        assert(word@ == word_at(parts.deep_view(), pos as int));
        let size = self.names.len();
        match self.child_for(i, word) {
            Some(c) => {
                proof {
                    self.lemma_first_match_range(i as int, word@, 0);
                    let k = self.first_match(i as int, word@, 0)->0;
                    assert(0 <= k < self.node_view(i as int).children.len());
                    self.lemma_child_index(i as int, k);
                    assert(self.size() == size);
                    assert(c as int == self.index_of(self.node_view(i as int).children[k]));
                }
                self.resolve_from(c, parts, pos + 1)
            },
            None => Some((i, pos)),
        }
    }

    /// Whether command `i`, reached at word `pos`, reads the words within
    /// their end (see `in_bounds`).
    fn reads_within(&self, i: usize, parts: &Vec<String>, pos: usize) -> (b: bool)
        requires
            self.wf(),
            i < self.size(),
        ensures
            b == match self.node_view(i as int).call_type {
                CommandCallType::Args => pos <= parts@.len(),
                CommandCallType::NoArgs => self.node_view(i as int).handler is Some || pos <= parts@.len() + 1,
                CommandCallType::NotCallable => pos <= parts@.len() + 1,
            },
    {
        let n = parts.len();
        match self.nodes[i].call_type {
            CommandCallType::Args => pos <= n,
            CommandCallType::NoArgs => self.nodes[i].handler.is_some() || pos == 0 || pos - 1 <= n,
            CommandCallType::NotCallable => pos == 0 || pos - 1 <= n,
        }
    }

    proof fn lemma_first_match_range(&self, i: int, word: Seq<char>, k: int)
        requires
            0 <= k,
        ensures
            self.first_match(i, word, k) matches Some(m) ==> k <= m < self.node_view(i).children.len(),
        decreases self.node_view(i).children.len() - k,
    {
        if k < self.node_view(i).children.len() && !self.answers(i, k, word) {
            self.lemma_first_match_range(i, word, k + 1);
        }
    }

    proof fn lemma_resolve_moves(&self, i: int, parts: Seq<Seq<char>>, pos: int)
        ensures
            self.resolve(i, parts, pos) matches Some((j, p)) ==> p >= pos && (j != i ==> p > pos),
        decreases self.size() - i,
    {
        if 0 <= i < self.size() && !self.node_view(i).aliases.contains("help"@) {
            match self.first_match(i, word_at(parts, pos), 0) {
                Some(k) => {
                    let c = self.index_of(self.node_view(i).children[k]);
                    if i < c < self.size() {
                        self.lemma_resolve_moves(c, parts, pos + 1);
                    }
                },
                None => {},
            }
        }
    }

    /// A command that takes arguments is handed the rest of the line as
    /// typed: the words that led to it, a space, then its arguments, make
    /// the line.
    pub proof fn lemma_arguments_are_the_rest_of_the_line(&self, input: Seq<char>)
        requires
            self.wf(),
        ensures
            match (self.outcome(input), self.resolve(0, split_on_space(input), 0)) {
                (OutcomeView::Run(_, args), Some((i, _))) => self.node_view(i).call_type
                    == CommandCallType::Args ==> exists|k: int|
                    1 <= k < split_on_space(input).len() && input == join_with(
                        split_on_space(input).take(k),
                        " "@,
                    ) + " "@ + args,
                _ => true,
            },
    {
        reveal(CommandSpec::wf);
        let parts = split_on_space(input);
        self.lemma_resolve_moves(0, parts, 0);
        match self.resolve(0, parts, 0) {
            Some((i, pos)) => {
                if self.node_view(i).call_type == CommandCallType::Args && parts.len() > pos
                    && self.node_view(i).handler is Some {
                    reveal_strlit(" ");
                    assert(" "@ == seq![' ']);
                    assert(i != 0);
                    lemma_split_rest(input, ' ', pos);
                    assert(parts.subrange(pos, parts.len() as int) =~= parts.skip(pos));
                }
            },
            None => {},
        }
    }

    /// Reads a line of input: follows its words, split at each space, from
    /// the root down through the subcommands they name, and says what the
    /// command reached does with the rest.
    pub fn call(&self, input: &str) -> (r: CallOutcome<H>)
        requires
            self.wf(),
            self.in_bounds(input@),
        ensures
            r@ == self.outcome(input@),
    {
        let parts = split_spaces(input);
        proof {
            reveal(CommandSpec::wf);
        }
        match self.resolve_from(0, &parts, 0) {
            None => CallOutcome::Help(self.print_help(1)),
            Some((i, pos)) => self.handle(i, &parts, pos),
        }
    }

    /// Reads a line of input as `call` does, where its words stay within
    /// their end as the command reached reads them (`None` otherwise: a
    /// line that reaches a command through empty names past its last word).
    pub fn try_call(&self, input: &str) -> (r: Option<CallOutcome<H>>)
        requires
            self.wf(),
        ensures
            r is Some <==> self.in_bounds(input@),
            r matches Some(o) ==> o@ == self.outcome(input@),
    {
        let parts = split_spaces(input);
        proof {
            reveal(CommandSpec::wf);
        }
        match self.resolve_from(0, &parts, 0) {
            None => Some(CallOutcome::Help(self.print_help(1))),
            Some((i, pos)) => {
                if self.reads_within(i, &parts, pos) {
                    Some(self.handle(i, &parts, pos))
                } else {
                    None
                }
            },
        }
    }
}

/// Whether one of the names is `word`.
fn has_alias(aliases: &Vec<String>, word: &str) -> (r: bool)
    ensures
        r == aliases.deep_view().contains(word@),
{
    let n = aliases.len();
    for k in 0..n
        invariant
            n == aliases@.len(),
            forall|m: int| 0 <= m < k ==> aliases.deep_view()[m] != word@,
    {
        if text_equals(aliases[k].as_str(), word) {
            assert(aliases.deep_view()[k as int] == word@);
            return true;
        }
    }
    false
}

} // verus!
