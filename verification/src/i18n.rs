//! The user-interface string table, in English and Chinese.

use vstd::prelude::*;

verus! {

/// The interface language.
#[derive(Debug, Clone, Copy, PartialEq, Eq, Structural)]
pub enum Language {
    English,
    Chinese,
}

impl Language {
    /// The language's own display name.
    pub fn display_name(&self) -> (r: &'static str)
        ensures
            self is English ==> r@ == "English"@,
            self is Chinese ==> r@ == "\u{4e2d}\u{6587}"@,
    {
        match self {
            Language::English => "English",
            Language::Chinese => "\u{4e2d}\u{6587}",
        }
    }

    /// Switches to the other language.
    pub fn toggle(&self) -> (r: Self)
        ensures
            self is English ==> r is Chinese,
            self is Chinese ==> r is English,
    {
        match self {
            Language::English => Language::Chinese,
            Language::Chinese => Language::English,
        }
    }
}

impl Default for Language {
    /// English is the default.
    fn default() -> (r: Self)
        ensures
            r is English,
    {
        Language::English
    }
}

/// The string table for one language.
pub struct I18n {
    pub lang: Language,
}

impl I18n {
    pub fn new(lang: Language) -> (r: Self)
        ensures
            r.lang == lang,
    {
        I18n { lang }
    }


    pub fn app_title(&self) -> (r: &'static str)
        ensures
            self.lang is English ==> r@ == " DevPanel "@,
            self.lang is Chinese ==> r@ == " DevPanel "@,
    {
        match self.lang {
            Language::English => " DevPanel ",
            Language::Chinese => " DevPanel ",
        }
    }

    pub fn projects(&self) -> (r: &'static str)
        ensures
            self.lang is English ==> r@ == " Projects "@,
            self.lang is Chinese ==> r@ == " \u{9879}\u{76ee}\u{5217}\u{8868} "@,
    {
        match self.lang {
            Language::English => " Projects ",
            Language::Chinese => " \u{9879}\u{76ee}\u{5217}\u{8868} ",
        }
    }

    pub fn dev_server(&self) -> (r: &'static str)
        ensures
            self.lang is English ==> r@ == "Dev Server"@,
            self.lang is Chinese ==> r@ == "\u{5f00}\u{53d1}\u{670d}\u{52a1}"@,
    {
        match self.lang {
            Language::English => "Dev Server",
            Language::Chinese => "\u{5f00}\u{53d1}\u{670d}\u{52a1}",
        }
    }

    pub fn interactive_shell(&self) -> (r: &'static str)
        ensures
            self.lang is English ==> r@ == "Interactive Shell"@,
            self.lang is Chinese ==> r@ == "\u{4ea4}\u{4e92}\u{7ec8}\u{7aef}"@,
    {
        match self.lang {
            Language::English => "Interactive Shell",
            Language::Chinese => "\u{4ea4}\u{4e92}\u{7ec8}\u{7aef}",
        }
    }

    pub fn settings(&self) -> (r: &'static str)
        ensures
            self.lang is English ==> r@ == " Settings "@,
            self.lang is Chinese ==> r@ == " \u{8bbe}\u{7f6e} "@,
    {
        match self.lang {
            Language::English => " Settings ",
            Language::Chinese => " \u{8bbe}\u{7f6e} ",
        }
    }

    pub fn help(&self) -> (r: &'static str)
        ensures
            self.lang is English ==> r@ == " Help "@,
            self.lang is Chinese ==> r@ == " \u{5e2e}\u{52a9} "@,
    {
        match self.lang {
            Language::English => " Help ",
            Language::Chinese => " \u{5e2e}\u{52a9} ",
        }
    }

    pub fn status_hint_sidebar(&self) -> (r: &'static str)
        ensures
            self.lang is English ==> r@ == " Tab: Project | Enter: Shell | r: Run | s: Stop | ,: Settings | ?: Help"@,
            self.lang is Chinese ==> r@ == " Tab: \u{5207}\u{6362} | Enter: \u{7ec8}\u{7aef} | r: \u{8fd0}\u{884c} | s: \u{505c}\u{6b62} | ,: \u{8bbe}\u{7f6e} | ?: \u{5e2e}\u{52a9}"@,
    {
        match self.lang {
            Language::English => " Tab: Project | Enter: Shell | r: Run | s: Stop | ,: Settings | ?: Help",
            Language::Chinese => " Tab: \u{5207}\u{6362} | Enter: \u{7ec8}\u{7aef} | r: \u{8fd0}\u{884c} | s: \u{505c}\u{6b62} | ,: \u{8bbe}\u{7f6e} | ?: \u{5e2e}\u{52a9}",
        }
    }

    pub fn status_hint_shell(&self) -> (r: &'static str)
        ensures
            self.lang is English ==> r@ == " Interactive Shell - type freely (Esc: back)"@,
            self.lang is Chinese ==> r@ == " \u{4ea4}\u{4e92}\u{7ec8}\u{7aef} - \u{81ea}\u{7531}\u{8f93}\u{5165} (Esc: \u{8fd4}\u{56de})"@,
    {
        match self.lang {
            Language::English => " Interactive Shell - type freely (Esc: back)",
            Language::Chinese => " \u{4ea4}\u{4e92}\u{7ec8}\u{7aef} - \u{81ea}\u{7531}\u{8f93}\u{5165} (Esc: \u{8fd4}\u{56de})",
        }
    }

    pub fn language(&self) -> (r: &'static str)
        ensures
            self.lang is English ==> r@ == "Language"@,
            self.lang is Chinese ==> r@ == "\u{8bed}\u{8a00}"@,
    {
        match self.lang {
            Language::English => "Language",
            Language::Chinese => "\u{8bed}\u{8a00}",
        }
    }

    pub fn settings_hint(&self) -> (r: &'static str)
        ensures
            self.lang is English ==> r@ == "\u{2191}/\u{2193}: Navigate | Enter: Toggle | Esc: Close"@,
            self.lang is Chinese ==> r@ == "\u{2191}/\u{2193}: \u{5bfc}\u{822a} | Enter: \u{5207}\u{6362} | Esc: \u{5173}\u{95ed}"@,
    {
        match self.lang {
            Language::English => "\u{2191}/\u{2193}: Navigate | Enter: Toggle | Esc: Close",
            Language::Chinese => "\u{2191}/\u{2193}: \u{5bfc}\u{822a} | Enter: \u{5207}\u{6362} | Esc: \u{5173}\u{95ed}",
        }
    }

    pub fn add_project(&self) -> (r: &'static str)
        ensures
            self.lang is English ==> r@ == "Add Project"@,
            self.lang is Chinese ==> r@ == "\u{6dfb}\u{52a0}\u{9879}\u{76ee}"@,
    {
        match self.lang {
            Language::English => "Add Project",
            Language::Chinese => "\u{6dfb}\u{52a0}\u{9879}\u{76ee}",
        }
    }

    pub fn enter_project_path(&self) -> (r: &'static str)
        ensures
            self.lang is English ==> r@ == "Enter project path:"@,
            self.lang is Chinese ==> r@ == "\u{8f93}\u{5165}\u{9879}\u{76ee}\u{8def}\u{5f84}\u{ff1a}"@,
    {
        match self.lang {
            Language::English => "Enter project path:",
            Language::Chinese => "\u{8f93}\u{5165}\u{9879}\u{76ee}\u{8def}\u{5f84}\u{ff1a}",
        }
    }

    pub fn add_command(&self) -> (r: &'static str)
        ensures
            self.lang is English ==> r@ == "Add Custom Command"@,
            self.lang is Chinese ==> r@ == "\u{6dfb}\u{52a0}\u{81ea}\u{5b9a}\u{4e49}\u{547d}\u{4ee4}"@,
    {
        match self.lang {
            Language::English => "Add Custom Command",
            Language::Chinese => "\u{6dfb}\u{52a0}\u{81ea}\u{5b9a}\u{4e49}\u{547d}\u{4ee4}",
        }
    }

    pub fn command_format_hint(&self) -> (r: &'static str)
        ensures
            self.lang is English ==> r@ == "Format: name:command"@,
            self.lang is Chinese ==> r@ == "\u{683c}\u{5f0f}\u{ff1a}\u{540d}\u{79f0}:\u{547d}\u{4ee4}"@,
    {
        match self.lang {
            Language::English => "Format: name:command",
            Language::Chinese => "\u{683c}\u{5f0f}\u{ff1a}\u{540d}\u{79f0}:\u{547d}\u{4ee4}",
        }
    }

    pub fn edit_alias(&self) -> (r: &'static str)
        ensures
            self.lang is English ==> r@ == "Edit Alias"@,
            self.lang is Chinese ==> r@ == "\u{7f16}\u{8f91}\u{522b}\u{540d}"@,
    {
        match self.lang {
            Language::English => "Edit Alias",
            Language::Chinese => "\u{7f16}\u{8f91}\u{522b}\u{540d}",
        }
    }

    pub fn alias_hint(&self) -> (r: &'static str)
        ensures
            self.lang is English ==> r@ == "Enter alias (empty to clear):"@,
            self.lang is Chinese ==> r@ == "\u{8f93}\u{5165}\u{522b}\u{540d}\u{ff08}\u{7559}\u{7a7a}\u{6e05}\u{9664}\u{ff09}\u{ff1a}"@,
    {
        match self.lang {
            Language::English => "Enter alias (empty to clear):",
            Language::Chinese => "\u{8f93}\u{5165}\u{522b}\u{540d}\u{ff08}\u{7559}\u{7a7a}\u{6e05}\u{9664}\u{ff09}\u{ff1a}",
        }
    }

    pub fn alias_set(&self) -> (r: &'static str)
        ensures
            self.lang is English ==> r@ == "Alias updated"@,
            self.lang is Chinese ==> r@ == "\u{522b}\u{540d}\u{5df2}\u{66f4}\u{65b0}"@,
    {
        match self.lang {
            Language::English => "Alias updated",
            Language::Chinese => "\u{522b}\u{540d}\u{5df2}\u{66f4}\u{65b0}",
        }
    }

    pub fn process_suspended(&self) -> (r: &'static str)
        ensures
            self.lang is English ==> r@ == "Process suspended (frozen)"@,
            self.lang is Chinese ==> r@ == "\u{8fdb}\u{7a0b}\u{5df2}\u{6682}\u{505c}\u{ff08}\u{51bb}\u{7ed3}\u{ff09}"@,
    {
        match self.lang {
            Language::English => "Process suspended (frozen)",
            Language::Chinese => "\u{8fdb}\u{7a0b}\u{5df2}\u{6682}\u{505c}\u{ff08}\u{51bb}\u{7ed3}\u{ff09}",
        }
    }

    pub fn process_resumed(&self) -> (r: &'static str)
        ensures
            self.lang is English ==> r@ == "Process resumed"@,
            self.lang is Chinese ==> r@ == "\u{8fdb}\u{7a0b}\u{5df2}\u{6062}\u{590d}"@,
    {
        match self.lang {
            Language::English => "Process resumed",
            Language::Chinese => "\u{8fdb}\u{7a0b}\u{5df2}\u{6062}\u{590d}",
        }
    }

    pub fn suspend_not_supported(&self) -> (r: &'static str)
        ensures
            self.lang is English ==> r@ == "Suspend not supported on this platform"@,
            self.lang is Chinese ==> r@ == "\u{5f53}\u{524d}\u{5e73}\u{53f0}\u{4e0d}\u{652f}\u{6301}\u{6682}\u{505c}\u{529f}\u{80fd}"@,
    {
        match self.lang {
            Language::English => "Suspend not supported on this platform",
            Language::Chinese => "\u{5f53}\u{524d}\u{5e73}\u{53f0}\u{4e0d}\u{652f}\u{6301}\u{6682}\u{505c}\u{529f}\u{80fd}",
        }
    }

    pub fn paused(&self) -> (r: &'static str)
        ensures
            self.lang is English ==> r@ == "PAUSED"@,
            self.lang is Chinese ==> r@ == "\u{5df2}\u{6682}\u{505c}"@,
    {
        match self.lang {
            Language::English => "PAUSED",
            Language::Chinese => "\u{5df2}\u{6682}\u{505c}",
        }
    }

    pub fn confirm(&self) -> (r: &'static str)
        ensures
            self.lang is English ==> r@ == " Confirm "@,
            self.lang is Chinese ==> r@ == " \u{786e}\u{8ba4} "@,
    {
        match self.lang {
            Language::English => " Confirm ",
            Language::Chinese => " \u{786e}\u{8ba4} ",
        }
    }

    pub fn yes_no(&self) -> (r: &'static str)
        ensures
            self.lang is English ==> r@ == "[y] Yes  [n] No"@,
            self.lang is Chinese ==> r@ == "[y] \u{662f}  [n] \u{5426}"@,
    {
        match self.lang {
            Language::English => "[y] Yes  [n] No",
            Language::Chinese => "[y] \u{662f}  [n] \u{5426}",
        }
    }

    pub fn run_command(&self) -> (r: &'static str)
        ensures
            self.lang is English ==> r@ == " Run Command "@,
            self.lang is Chinese ==> r@ == " \u{8fd0}\u{884c}\u{547d}\u{4ee4} "@,
    {
        match self.lang {
            Language::English => " Run Command ",
            Language::Chinese => " \u{8fd0}\u{884c}\u{547d}\u{4ee4} ",
        }
    }

    pub fn no_project(&self) -> (r: &'static str)
        ensures
            self.lang is English ==> r@ == "No project selected. Press 'a' to add one."@,
            self.lang is Chinese ==> r@ == "\u{672a}\u{9009}\u{62e9}\u{9879}\u{76ee}\u{3002}\u{6309} 'a' \u{6dfb}\u{52a0}\u{9879}\u{76ee}\u{3002}"@,
    {
        match self.lang {
            Language::English => "No project selected. Press 'a' to add one.",
            Language::Chinese => "\u{672a}\u{9009}\u{62e9}\u{9879}\u{76ee}\u{3002}\u{6309} 'a' \u{6dfb}\u{52a0}\u{9879}\u{76ee}\u{3002}",
        }
    }

    pub fn no_projects(&self) -> (r: &'static str)
        ensures
            self.lang is English ==> r@ == "  No projects"@,
            self.lang is Chinese ==> r@ == "  \u{6682}\u{65e0}\u{9879}\u{76ee}"@,
    {
        match self.lang {
            Language::English => "  No projects",
            Language::Chinese => "  \u{6682}\u{65e0}\u{9879}\u{76ee}",
        }
    }

    pub fn add_project_hint(&self) -> (r: &'static str)
        ensures
            self.lang is English ==> r@ == "  [+] Add Project (a)"@,
            self.lang is Chinese ==> r@ == "  [+] \u{6dfb}\u{52a0}\u{9879}\u{76ee} (a)"@,
    {
        match self.lang {
            Language::English => "  [+] Add Project (a)",
            Language::Chinese => "  [+] \u{6dfb}\u{52a0}\u{9879}\u{76ee} (a)",
        }
    }

    pub fn shell_waiting(&self) -> (r: &'static str)
        ensures
            self.lang is English ==> r@ == "Shell running, waiting for output..."@,
            self.lang is Chinese ==> r@ == "Shell \u{8fd0}\u{884c}\u{4e2d}\u{ff0c}\u{7b49}\u{5f85}\u{8f93}\u{51fa}..."@,
    {
        match self.lang {
            Language::English => "Shell running, waiting for output...",
            Language::Chinese => "Shell \u{8fd0}\u{884c}\u{4e2d}\u{ff0c}\u{7b49}\u{5f85}\u{8f93}\u{51fa}...",
        }
    }

    pub fn shell_ended(&self) -> (r: &'static str)
        ensures
            self.lang is English ==> r@ == "Shell process ended"@,
            self.lang is Chinese ==> r@ == "Shell \u{8fdb}\u{7a0b}\u{5df2}\u{7ed3}\u{675f}"@,
    {
        match self.lang {
            Language::English => "Shell process ended",
            Language::Chinese => "Shell \u{8fdb}\u{7a0b}\u{5df2}\u{7ed3}\u{675f}",
        }
    }

    pub fn press_r_to_run(&self) -> (r: &'static str)
        ensures
            self.lang is English ==> r@ == "Press 'r' to run a command"@,
            self.lang is Chinese ==> r@ == "\u{6309} 'r' \u{8fd0}\u{884c}\u{547d}\u{4ee4}"@,
    {
        match self.lang {
            Language::English => "Press 'r' to run a command",
            Language::Chinese => "\u{6309} 'r' \u{8fd0}\u{884c}\u{547d}\u{4ee4}",
        }
    }

    pub fn press_enter_for_shell(&self) -> (r: &'static str)
        ensures
            self.lang is English ==> r@ == "Press Enter to start shell"@,
            self.lang is Chinese ==> r@ == "\u{6309} Enter \u{542f}\u{52a8}\u{7ec8}\u{7aef}"@,
    {
        match self.lang {
            Language::English => "Press Enter to start shell",
            Language::Chinese => "\u{6309} Enter \u{542f}\u{52a8}\u{7ec8}\u{7aef}",
        }
    }

    pub fn dev_stopped(&self) -> (r: &'static str)
        ensures
            self.lang is English ==> r@ == "Dev server stopped"@,
            self.lang is Chinese ==> r@ == "\u{5f00}\u{53d1}\u{670d}\u{52a1}\u{5df2}\u{505c}\u{6b62}"@,
    {
        match self.lang {
            Language::English => "Dev server stopped",
            Language::Chinese => "\u{5f00}\u{53d1}\u{670d}\u{52a1}\u{5df2}\u{505c}\u{6b62}",
        }
    }

    pub fn sent_interrupt(&self) -> (r: &'static str)
        ensures
            self.lang is English ==> r@ == "Sent interrupt to dev server"@,
            self.lang is Chinese ==> r@ == "\u{5df2}\u{53d1}\u{9001}\u{4e2d}\u{65ad}\u{4fe1}\u{53f7}"@,
    {
        match self.lang {
            Language::English => "Sent interrupt to dev server",
            Language::Chinese => "\u{5df2}\u{53d1}\u{9001}\u{4e2d}\u{65ad}\u{4fe1}\u{53f7}",
        }
    }

    pub fn shell_started(&self) -> (r: &'static str)
        ensures
            self.lang is English ==> r@ == "Shell started - type commands here"@,
            self.lang is Chinese ==> r@ == "\u{7ec8}\u{7aef}\u{5df2}\u{542f}\u{52a8} - \u{53ef}\u{8f93}\u{5165}\u{547d}\u{4ee4}"@,
    {
        match self.lang {
            Language::English => "Shell started - type commands here",
            Language::Chinese => "\u{7ec8}\u{7aef}\u{5df2}\u{542f}\u{52a8} - \u{53ef}\u{8f93}\u{5165}\u{547d}\u{4ee4}",
        }
    }

    pub fn project_removed(&self) -> (r: &'static str)
        ensures
            self.lang is English ==> r@ == "Project removed"@,
            self.lang is Chinese ==> r@ == "\u{9879}\u{76ee}\u{5df2}\u{79fb}\u{9664}"@,
    {
        match self.lang {
            Language::English => "Project removed",
            Language::Chinese => "\u{9879}\u{76ee}\u{5df2}\u{79fb}\u{9664}",
        }
    }

    pub fn delete_project(&self) -> (r: &'static str)
        ensures
            self.lang is English ==> r@ == "Delete this project?"@,
            self.lang is Chinese ==> r@ == "\u{5220}\u{9664}\u{6b64}\u{9879}\u{76ee}\u{ff1f}"@,
    {
        match self.lang {
            Language::English => "Delete this project?",
            Language::Chinese => "\u{5220}\u{9664}\u{6b64}\u{9879}\u{76ee}\u{ff1f}",
        }
    }

    pub fn loading(&self) -> (r: &'static str)
        ensures
            self.lang is English ==> r@ == "Loading..."@,
            self.lang is Chinese ==> r@ == "\u{52a0}\u{8f7d}\u{4e2d}..."@,
    {
        match self.lang {
            Language::English => "Loading...",
            Language::Chinese => "\u{52a0}\u{8f7d}\u{4e2d}...",
        }
    }
}

} // verus!
