//! Configuration of the new system: time zone, localization and network.
pub mod worker;

use crate::fs::write_on_file;
use crate::terminal::{chroot, chroot_line, extend_steps, Step, StepView};
use vstd::prelude::*;

verus! {

/// The configuration of the new system.
pub struct System {
    pub timezone: Timezone,
    pub localization: Localization,
    pub network: Network,
}

/// The time zone, as a region and a city of the zone database.
pub struct Timezone {
    pub region: String,
    pub city: String,
}

/// The locale, language and console keymap.
pub struct Localization {
    /// A line of `locale.gen` that enables the locale.
    pub locale: String,
    pub lang: String,
    /// The console keymap; none is configured when it is missing or empty.
    pub keymap: Option<String>,
}

/// The network identity of the new system.
pub struct Network {
    pub hostname: String,
}

/// What a [`Timezone`] stands for.
pub struct TimezoneView {
    pub region: Seq<char>,
    pub city: Seq<char>,
}

/// What a [`Localization`] stands for.
pub struct LocalizationView {
    pub locale: Seq<char>,
    pub lang: Seq<char>,
    pub keymap: Option<Seq<char>>,
}

/// What a [`System`] stands for.
pub struct SystemView {
    pub timezone: TimezoneView,
    pub localization: LocalizationView,
    pub hostname: Seq<char>,
}

impl View for Timezone {
    type V = TimezoneView;

    open spec fn view(&self) -> TimezoneView {
        TimezoneView { region: self.region@, city: self.city@ }
    }
}

impl View for Localization {
    type V = LocalizationView;

    open spec fn view(&self) -> LocalizationView {
        LocalizationView {
            locale: self.locale@,
            lang: self.lang@,
            keymap: self.keymap.deep_view(),
        }
    }
}

impl View for System {
    type V = SystemView;

    open spec fn view(&self) -> SystemView {
        SystemView {
            timezone: self.timezone@,
            localization: self.localization@,
            hostname: self.network.hostname@,
        }
    }
}

/// The step that links the zone file of the time zone as the local time.
pub open spec fn timezone_step(tz: TimezoneView) -> StepView {
    StepView::Execute {
        command: chroot_line(
            seq![
                "ln"@,
                "-sf"@,
                "/usr/share/zoneinfo/"@ + tz.region + "/"@ + tz.city,
                "/etc/localtime"@,
            ],
        ),
        context: "error setting timezone"@,
    }
}

/// The step that sets the hardware clock from the system clock.
pub open spec fn hwclock_step() -> StepView {
    StepView::Execute {
        command: chroot_line(seq!["hwclock"@, "--systohc"@]),
        context: "error setting hwclock"@,
    }
}

/// The steps that configure the time zone.
pub open spec fn timezone_steps(tz: TimezoneView) -> Seq<StepView> {
    seq![timezone_step(tz), hwclock_step()]
}

/// The steps that enable the locale and generate it.
pub open spec fn locale_steps(locale: Seq<char>) -> Seq<StepView> {
    seq![
        StepView::Append {
            path: "/mnt/etc/locale.gen"@,
            line: locale,
            context: "error setting locale"@,
        },
        StepView::Execute {
            command: chroot_line(seq!["locale-gen"@]),
            context: "error generating locale"@,
        },
    ]
}

/// The step that sets the language.
pub open spec fn lang_step(lang: Seq<char>) -> StepView {
    StepView::Append {
        path: "/mnt/etc/locale.conf"@,
        line: "LANG="@ + lang,
        context: "error setting  lang"@,
    }
}

/// The steps that set the console keymap: none when no keymap, or an empty
/// one, is given.
pub open spec fn keymap_steps(keymap: Option<Seq<char>>) -> Seq<StepView> {
    match keymap {
        Some(k) => if k.len() > 0 {
            seq![
                StepView::Append {
                    path: "/mnt/etc/vconsole.conf"@,
                    line: "KEYMAP="@ + k,
                    context: "error setting keymap"@,
                },
            ]
        } else {
            Seq::empty()
        },
        None => Seq::empty(),
    }
}

/// The steps that configure the localization.
pub open spec fn localization_steps(l: LocalizationView) -> Seq<StepView> {
    locale_steps(l.locale) + seq![lang_step(l.lang)] + keymap_steps(l.keymap)
}

/// The step that sets the host name.
pub open spec fn hostname_step(hostname: Seq<char>) -> StepView {
    StepView::Append {
        path: "/mnt/etc/hostname"@,
        line: hostname,
        context: "error setting hostname"@,
    }
}

/// The steps that write the hosts file: the loopback names, then the host name.
pub open spec fn hosts_steps(hostname: Seq<char>) -> Seq<StepView> {
    seq![
        StepView::Append {
            path: "/mnt/etc/hosts"@,
            line: "127.0.0.1\tlocalhost"@,
            context: "error setting /etc/hosts"@,
        },
        StepView::Append {
            path: "/mnt/etc/hosts"@,
            line: "::1\t\tlocalhost"@,
            context: "error setting /etc/hosts"@,
        },
        StepView::Append {
            path: "/mnt/etc/hosts"@,
            line: "127.0.1.1\t"@ + hostname,
            context: "error setting /etc/hosts"@,
        },
    ]
}

/// The steps that configure the network.
pub open spec fn network_steps(hostname: Seq<char>) -> Seq<StepView> {
    seq![hostname_step(hostname)] + hosts_steps(hostname)
}

/// The steps that configure the system: time zone, localization, network.
pub open spec fn config_steps(sys: SystemView) -> Seq<StepView> {
    timezone_steps(sys.timezone) + localization_steps(sys.localization) + network_steps(
        sys.hostname,
    )
}

impl System {
    /// The steps that configure the time zone, the localization and the network, in that order.
    pub fn set_config(self) -> (res: Vec<Step>)
        ensures
            res.deep_view() == config_steps(self@),
    {
        let mut res = self.timezone.set();
        extend_steps(&mut res, self.localization.set());
        extend_steps(&mut res, self.network.set());
        assert(res.deep_view() =~= config_steps(self@));
        res
    }
}

impl Timezone {
    /// The steps that configure the time zone and the hardware clock.
    pub fn set(&self) -> (res: Vec<Step>)
        ensures
            res.deep_view() == timezone_steps(self@),
    {
        let mut res: Vec<Step> = Vec::new();
        res.push(self.set_timezone());
        res.push(Timezone::set_hwclock());
        assert(res.deep_view() =~= timezone_steps(self@));
        res
    }

    /// The step that links the zone file as the local time.
    pub fn set_timezone(&self) -> (res: Step)
        ensures
            res@ == timezone_step(self@),
    {
        let timezone = "/usr/share/zoneinfo/".to_owned().concat(self.region.as_str()).concat("/").concat(
            self.city.as_str(),
        );
        let mut args: Vec<String> = Vec::new();
        args.push("ln".to_owned());
        args.push("-sf".to_owned());
        args.push(timezone);
        args.push("/etc/localtime".to_owned());
        assert(args.deep_view() =~= seq![
            "ln"@,
            "-sf"@,
            "/usr/share/zoneinfo/"@ + self.region@ + "/"@ + self.city@,
            "/etc/localtime"@,
        ]);
        Step::Execute { command: chroot(args), context: "error setting timezone".to_owned() }
    }

    /// The step that sets the hardware clock.
    pub fn set_hwclock() -> (res: Step)
        ensures
            res@ == hwclock_step(),
    {
        let mut args: Vec<String> = Vec::new();
        args.push("hwclock".to_owned());
        args.push("--systohc".to_owned());
        assert(args.deep_view() =~= seq!["hwclock"@, "--systohc"@]);
        Step::Execute { command: chroot(args), context: "error setting hwclock".to_owned() }
    }
}

impl Localization {
    /// The steps that configure the locale, the language and the keymap, in that order.
    pub fn set(&self) -> (res: Vec<Step>)
        ensures
            res.deep_view() == localization_steps(self@),
    {
        let mut res = self.set_locale();
        res.push(self.set_lang());
        extend_steps(&mut res, self.set_keymap());
        assert(res.deep_view() =~= localization_steps(self@));
        res
    }

    /// The steps that enable the locale and generate it.
    pub fn set_locale(&self) -> (res: Vec<Step>)
        ensures
            res.deep_view() == locale_steps(self.locale@),
    {
        let mut res: Vec<Step> = Vec::new();
        res.push(write_on_file("/mnt/etc/locale.gen", self.locale.as_str(), "error setting locale"));
        let mut args: Vec<String> = Vec::new();
        args.push("locale-gen".to_owned());
        assert(args.deep_view() =~= seq!["locale-gen"@]);
        res.push(Step::Execute { command: chroot(args), context: "error generating locale".to_owned() });
        assert(res.deep_view() =~= locale_steps(self.locale@));
        res
    }

    /// The step that sets the language.
    pub fn set_lang(&self) -> (res: Step)
        ensures
            res@ == lang_step(self.lang@),
    {
        let lang = "LANG=".to_owned().concat(self.lang.as_str());
        write_on_file("/mnt/etc/locale.conf", lang.as_str(), "error setting  lang")
    }

    /// The steps that set the console keymap, when one is given.
    pub fn set_keymap(&self) -> (res: Vec<Step>)
        ensures
            res.deep_view() == keymap_steps(self.keymap.deep_view()),
    {
        let mut res: Vec<Step> = Vec::new();
        proof {
            reveal_strlit("");
        }
        match &self.keymap {
            Some(keymap) => {
                proof {
                    if keymap@.len() == 0 {
                        assert(keymap@ =~= ""@);
                    }
                }
                if !(*keymap == "".to_owned()) {
                    let km = "KEYMAP=".to_owned().concat(keymap.as_str());
                    res.push(write_on_file("/mnt/etc/vconsole.conf", km.as_str(), "error setting keymap"));
                }
            },
            None => {},
        }
        assert(res.deep_view() =~= keymap_steps(self.keymap.deep_view()));
        res
    }
}

impl Network {
    /// The steps that set the host name and write the hosts file.
    pub fn set(&self) -> (res: Vec<Step>)
        ensures
            res.deep_view() == network_steps(self.hostname@),
    {
        let mut res: Vec<Step> = Vec::new();
        res.push(self.set_hostname());
        extend_steps(&mut res, self.set_hosts());
        assert(res.deep_view() =~= network_steps(self.hostname@));
        res
    }

    /// The step that sets the host name.
    pub fn set_hostname(&self) -> (res: Step)
        ensures
            res@ == hostname_step(self.hostname@),
    {
        write_on_file("/mnt/etc/hostname", self.hostname.as_str(), "error setting hostname")
    }

    /// The steps that write the hosts file.
    pub fn set_hosts(&self) -> (res: Vec<Step>)
        ensures
            res.deep_view() == hosts_steps(self.hostname@),
    {
        let localdomain = "127.0.1.1\t".to_owned().concat(self.hostname.as_str());
        let mut res: Vec<Step> = Vec::new();
        res.push(write_on_file("/mnt/etc/hosts", "127.0.0.1\tlocalhost", "error setting /etc/hosts"));
        res.push(write_on_file("/mnt/etc/hosts", "::1\t\tlocalhost", "error setting /etc/hosts"));
        res.push(write_on_file("/mnt/etc/hosts", localdomain.as_str(), "error setting /etc/hosts"));
        assert(res.deep_view() =~= hosts_steps(self.hostname@));
        res
    }
}

} // verus!
