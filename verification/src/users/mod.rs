//! User accounts of the new system.
pub mod defaults;
pub mod worker;

use crate::terminal::{chroot, chroot_line, prompt_text, CommandView, PromtInput, Step, StepView};
use vstd::prelude::*;

verus! {

/// A user account to create in the new system.
pub struct User {
    pub name: String,
    /// The supplementary groups of the user, if any are given.
    pub groups: Option<Vec<String>>,
    /// The password, as `useradd -p` takes it.
    pub passwd: String,
    /// The name of the login shell (see [`defaults::terminal`]).
    pub terminal: String,
}

/// What a [`User`] stands for.
pub struct UserView {
    pub name: Seq<char>,
    pub groups: Option<Seq<Seq<char>>>,
    pub passwd: Seq<char>,
    pub terminal: Seq<char>,
}

impl View for User {
    type V = UserView;

    open spec fn view(&self) -> UserView {
        UserView {
            name: self.name@,
            groups: self.groups.deep_view(),
            passwd: self.passwd@,
            terminal: self.terminal@,
        }
    }
}

impl DeepView for User {
    type V = UserView;

    open spec fn deep_view(&self) -> UserView {
        self@
    }
}

/// The root account of the new system.
pub struct Root {
    pub passwd: String,
}

/// The login shell that a terminal name selects: `zsh` and `sh` select their
/// own binary, any other name selects bash.
pub open spec fn shell_path(terminal: Seq<char>) -> Seq<char> {
    if terminal == "zsh"@ {
        "/bin/zsh"@
    } else if terminal == "sh"@ {
        "/bin/sh"@
    } else {
        "/bin/bash"@
    }
}

/// Group names separated by commas.
pub open spec fn comma_separated(groups: Seq<Seq<char>>) -> Seq<char>
    decreases groups.len(),
{
    if groups.len() == 0 {
        Seq::empty()
    } else if groups.len() == 1 {
        groups[0]
    } else {
        comma_separated(groups.drop_last()) + ","@ + groups.last()
    }
}

/// The arguments of `useradd` that create the user: a home directory, the
/// primary group `users`, the supplementary groups when some are given, the
/// login shell, the password and the name.
pub open spec fn useradd_args(user: UserView) -> Seq<Seq<char>> {
    let tail = seq![
        "-s"@,
        shell_path(user.terminal),
        "-p"@,
        user.passwd,
        user.name,
    ];
    match user.groups {
        Some(groups) => seq!["useradd"@, "-m"@, "-g"@, "users"@, "-G"@, comma_separated(groups)]
            + tail,
        None => seq!["useradd"@, "-m"@, "-g"@, "users"@] + tail,
    }
}

/// The step that creates a user account.
pub open spec fn add_user_step(user: UserView) -> StepView {
    StepView::Execute { command: chroot_line(useradd_args(user)), context: "Error creating users"@ }
}

/// The step that sets the password of root: `passwd` is run in the new
/// system and given the password twice.
pub open spec fn root_password_step(passwd: Seq<char>) -> StepView {
    StepView::ExecuteWithInput {
        command: chroot_line(seq!["passwd"@]),
        context: "error setting root passwd"@,
        input: prompt_text(seq![passwd, passwd]),
    }
}

impl User {
    /// Describes a user account.
    pub fn new(name: String, groups: Option<Vec<String>>, passwd: String, terminal: String) -> (res: User)
        ensures
            res@ == (UserView {
                name: name@,
                groups: groups.deep_view(),
                passwd: passwd@,
                terminal: terminal@,
            }),
    {
        User { name, groups, passwd, terminal }
    }

    /// The step that creates the account in the new system.
    pub fn add(self) -> (res: Step)
        ensures
            res@ == add_user_step(self@),
    {
        let ghost user = self@;
        let mut args: Vec<String> = Vec::new();
        args.push("useradd".to_owned());
        args.push("-m".to_owned());
        args.push("-g".to_owned());
        args.push("users".to_owned());
        match self.groups {
            Some(groups) => {
                args.push("-G".to_owned());
                args.push(User::groups(groups));
            },
            None => {},
        }
        args.push("-s".to_owned());
        args.push(User::terminal(self.terminal.as_str()).to_owned());
        args.push("-p".to_owned());
        args.push(self.passwd);
        args.push(self.name);
        assert(args.deep_view() =~= useradd_args(user));
        Step::Execute { command: chroot(args), context: "Error creating users".to_owned() }
    }

    /// The group names separated by commas.
    pub fn groups(groups: Vec<String>) -> (res: String)
        ensures
            res@ == comma_separated(groups.deep_view()),
    {
        let mut g = String::new();
        let n = groups.len();
        for i in 0..n
            invariant
                n == groups.len(),
                g@ == comma_separated(groups.deep_view().take(i as int)),
        {
            assert(groups.deep_view().take(i + 1).drop_last() =~= groups.deep_view().take(i as int));
            if i > 0 {
                g.append(",");
            } else {
                assert(groups.deep_view().take(1) =~= seq![groups.deep_view()[0]]);
            }
            g.append(groups[i].as_str());
        }
        assert(groups.deep_view().take(n as int) =~= groups.deep_view());
        g
    }

    /// The login shell that a terminal name selects.
    pub fn terminal(terminal: &str) -> (res: &'static str)
        ensures
            res@ == shell_path(terminal@),
    {
        let t = terminal.to_owned();
        if t == "zsh".to_owned() {
            "/bin/zsh"
        } else if t == "sh".to_owned() {
            "/bin/sh"
        } else {
            "/bin/bash"
        }
    }
}

impl Root {
    /// The step that sets the password of root.
    pub fn set_pwd(&self) -> (res: Step)
        ensures
            res@ == root_password_step(self.passwd@),
    {
        let mut args: Vec<String> = Vec::new();
        args.push("passwd".to_owned());
        assert(args.deep_view() =~= seq!["passwd"@]);
        let mut answers: Vec<String> = Vec::new();
        answers.push(self.passwd.clone());
        answers.push(self.passwd.clone());
        assert(answers.deep_view() =~= seq![self.passwd@, self.passwd@]);
        let prompt = PromtInput::new(answers);
        Step::ExecuteWithInput {
            command: chroot(args),
            context: "error setting root passwd".to_owned(),
            input: prompt.input(),
        }
    }
}


/// Every group name followed by a comma.
pub open spec fn each_followed_by_comma(groups: Seq<Seq<char>>) -> Seq<char>
    decreases groups.len(),
{
    if groups.len() == 0 {
        Seq::empty()
    } else {
        each_followed_by_comma(groups.drop_last()) + groups.last() + ","@
    }
}

/// The group list is every group followed by a comma, the final comma left
/// out: appending a comma to it gives each group followed by a comma, and it
/// is empty when there is no group.
pub proof fn law_groups_drop_final_comma(groups: Seq<Seq<char>>)
    ensures
        groups.len() > 0 ==> comma_separated(groups) + ","@ == each_followed_by_comma(groups),
        groups.len() == 0 ==> comma_separated(groups) == Seq::<char>::empty(),
    decreases groups.len(),
{
    if groups.len() == 1 {
        assert(groups.drop_last().len() == 0);
        assert(each_followed_by_comma(groups.drop_last()) == Seq::<char>::empty());
        assert(Seq::<char>::empty() + groups.last() =~= groups[0]);
        assert(comma_separated(groups) == groups[0]);
    } else if groups.len() > 1 {
        let init = groups.drop_last();
        law_groups_drop_final_comma(init);
        assert(comma_separated(groups) == comma_separated(init) + ","@ + groups.last());
        assert(each_followed_by_comma(groups) == each_followed_by_comma(init) + groups.last() + ","@);
        assert(each_followed_by_comma(init) == comma_separated(init) + ","@);
    }
}

/// A user whose description names no terminal gets bash as login shell.
pub proof fn law_default_terminal_is_bash()
    ensures
        shell_path("bash"@) == "/bin/bash"@,
{
    reveal_strlit("bash");
    reveal_strlit("zsh");
    reveal_strlit("sh");
    assert("bash"@ != "zsh"@) by {
        assert("bash"@[0] != "zsh"@[0]);
    }
    assert("bash"@ != "sh"@) by {
        assert("bash"@.len() != "sh"@.len());
    }
}


/// Root's password is set by typing the given password, unchanged, twice
/// into `passwd` run in the new system, each time followed by a newline.
pub proof fn law_root_password_typed_verbatim_twice(passwd: Seq<char>)
    ensures
        root_password_step(passwd) == (StepView::ExecuteWithInput {
            command: CommandView { program: "arch-chroot"@, args: seq!["/mnt"@, "passwd"@] },
            context: "error setting root passwd"@,
            input: passwd + "\n"@ + passwd + "\n"@,
        }),
{
    let two = seq![passwd, passwd];
    assert(two.drop_last() =~= seq![passwd]);
    assert(seq![passwd].drop_last() =~= Seq::<Seq<char>>::empty());
    assert(prompt_text(Seq::<Seq<char>>::empty()) == Seq::<char>::empty());
    assert(prompt_text(seq![passwd]) == prompt_text(Seq::<Seq<char>>::empty()) + passwd + "\n"@);
    assert(prompt_text(seq![passwd]) =~= passwd + "\n"@);
    assert(prompt_text(two) =~= passwd + "\n"@ + passwd + "\n"@);
    assert(seq!["/mnt"@] + seq!["passwd"@] =~= seq!["/mnt"@, "passwd"@]);
}

/// `useradd` runs in the new system and its arguments end with the login
/// shell, the password exactly as given, and the user's name; the
/// supplementary groups, when given, follow `-G` right after the primary
/// group `users`.
pub proof fn law_useradd_passes_user_verbatim(user: UserView)
    ensures
        ({
            let step = add_user_step(user);
            step is Execute && {
                let command = step->Execute_command;
                let args = command.args;
                let n = args.len();
                &&& command.program == "arch-chroot"@
                &&& n >= 10
                &&& args.subrange(0, 6) == seq!["/mnt"@, "useradd"@, "-m"@, "-g"@, "users"@, if user.groups is Some {
                    "-G"@
                } else {
                    "-s"@
                }]
                &&& args[n - 1] == user.name
                &&& args[n - 2] == user.passwd
                &&& args[n - 3] == "-p"@
                &&& args[n - 4] == shell_path(user.terminal)
                &&& args[n - 5] == "-s"@
                &&& (user.groups matches Some(groups) ==> n == 12 && args[6] == comma_separated(groups))
                &&& (user.groups is None ==> n == 10)
            }
        }),
{
    let args = seq!["/mnt"@] + useradd_args(user);
    assert(add_user_step(user)->Execute_command.args == args);
    let n = args.len();
    assert(args.subrange(0, 6) =~= seq!["/mnt"@, "useradd"@, "-m"@, "-g"@, "users"@, if user.groups is Some {
        "-G"@
    } else {
        "-s"@
    }]);
}

} // verus!
