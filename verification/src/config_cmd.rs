//! The `config` command's decisions: where the user configuration lives,
//! the template a fresh one starts from, and how the `EDITOR` value turns
//! into an editor invocation.  Creating the file and launching the editor
//! happen outside this crate.

use vstd::prelude::*;
use vstd::string::StrSliceExecFns;
use crate::strutil::{concat_str, trim_str, trim_ws};

verus! {

/// The config command's arguments: `ensure_only` creates the file without
/// opening it.
#[derive(Debug, Clone, Default)]
pub struct ConfigCommand {
    pub ensure_only: bool,
}

/// The user configuration file: the first configured directory, or the
/// default `<home>/.config/arb`, joined with `arb.lua`.
pub fn resolve_user_config_path(config_dirs: &Vec<String>, home: &str) -> (r: String)
    ensures
        config_dirs@.len() > 0 ==> r@ == config_dirs.deep_view()[0] + "/arb.lua"@,
        config_dirs@.len() == 0 ==> r@ == home@ + "/.config/arb"@ + "/arb.lua"@,
{
    if config_dirs.len() > 0 {
        proof {
            assert(config_dirs.deep_view()[0] == config_dirs@[0]@);
        }
        concat_str(config_dirs[0].as_str(), "/arb.lua")
    } else {
        let base = concat_str(home, "/.config/arb");
        concat_str(base.as_str(), "/arb.lua")
    }
}

/// What the `EDITOR` environment value asks for.
#[derive(Debug)]
pub enum EditorDecision {
    /// No editor is configured; fall back to the platform's opener.
    NoEditor,
    /// The editor value cannot be split into words.
    Invalid { editor: String },
    /// Launch this program with these arguments, then the file.
    Launch { program: String, args: Vec<String> },
}

/// What shell-style word splitting yields on a string; the result depends
/// on the string alone.
pub uninterp spec fn split_words(s: Seq<char>) -> Option<Seq<Seq<char>>>;

/// Relies on `shell_words::split`: splits a command line into words by
/// shell quoting rules, failing on mismatched quotes.
#[verifier::external_body]
fn split_editor_words(s: &str) -> (r: Option<Vec<String>>)
    ensures
        r is Some <==> split_words(s@) is Some,
        r matches Some(v) ==> v.deep_view() == split_words(s@)->Some_0,
{
    match shell_words::split(s) {
        Ok(v) => Some(v),
        Err(_) => None,
    }
}

/// Decide how to open the configuration file from the `EDITOR` value: no
/// editor when it is unset, blank, or splits into no words; invalid when it
/// cannot be split; otherwise the first word is the program and the rest
/// its arguments.
pub fn editor_invocation(editor_value: &Option<String>) -> (r: EditorDecision)
    ensures
        (*editor_value) is None ==> r is NoEditor,
        (*editor_value) matches Some(e) ==> {
            let t = trim_ws(e@);
            &&& (t.len() == 0 ==> r is NoEditor)
            &&& (t.len() > 0 && split_words(t) is None ==> (r matches EditorDecision::Invalid {
                editor,
            } && editor@ == t))
            &&& (t.len() > 0 ==> (split_words(t) matches Some(parts) ==> {
                &&& (parts.len() == 0 ==> r is NoEditor)
                &&& (parts.len() > 0 ==> (r matches EditorDecision::Launch { program, args }
                    && program@ == parts[0] && args.deep_view() == parts.drop_first()))
            }))
        },
{
    match editor_value {
        None => EditorDecision::NoEditor,
        Some(e) => {
            let t = trim_str(e.as_str());
            if t.as_str().unicode_len() == 0 {
                return EditorDecision::NoEditor;
            }
            match split_editor_words(t.as_str()) {
                None => EditorDecision::Invalid { editor: t },
                Some(parts) => {
                    if parts.len() == 0 {
                        EditorDecision::NoEditor
                    } else {
                        let ghost pv = parts.deep_view();
                        let program = parts[0].clone();
                        let mut args: Vec<String> = Vec::new();
                        let n = parts.len();
                        let mut i: usize = 1;
                        while i < n
                            invariant
                                1 <= i <= n,
                                n == parts@.len(),
                                pv == parts.deep_view(),
                                args.deep_view() =~= pv.subrange(1, i as int),
                            decreases n - i,
                        {
                            proof {
                                assert(parts.deep_view()[i as int] == parts@[i as int]@);
                            }
                            let ghost old_args = args.deep_view();
                            args.push(parts[i].clone());
                            proof {
                                assert(args.deep_view() =~= old_args.push(parts@[i as int]@));
                                assert(old_args.push(pv[i as int]) =~= pv.subrange(1, i as int + 1));
                            }
                            i = i + 1;
                        }
                        proof {
                            assert(args.deep_view() =~= pv.drop_first());
                            assert(parts.deep_view()[0] == parts@[0]@);
                        }
                        EditorDecision::Launch { program, args }
                    }
                },
            }
        },
    }
}

/// The template a fresh user configuration starts from.  Its content is a
/// plain Lua document; nothing of it is relied on elsewhere, so no contract
/// is stated over it.
pub fn minimal_user_config_template() -> &'static str {
    "-- arb config template v1
local wezterm = require 'wezterm'

local function resolve_bundled_config()
  local resource_dir = wezterm.executable_dir:gsub('MacOS/?$', 'Resources')
  local bundled = resource_dir .. '/arb.lua'
  local f = io.open(bundled, 'r')
  if f then
    f:close()
    return bundled
  end

  local app_bundled = '/Applications/Arb.app/Contents/Resources/arb.lua'
  f = io.open(app_bundled, 'r')
  if f then
    f:close()
    return app_bundled
  end

  local home = os.getenv('HOME') or ''
  local home_bundled = home .. '/Applications/Arb.app/Contents/Resources/arb.lua'
  f = io.open(home_bundled, 'r')
  if f then
    f:close()
    return home_bundled
  end

  local dev_bundled = wezterm.executable_dir .. '/../../assets/macos/Arb.app/Contents/Resources/arb.lua'
  f = io.open(dev_bundled, 'r')
  if f then
    f:close()
    return dev_bundled
  end

  return nil
end

local config = {}
local bundled = resolve_bundled_config()

if bundled then
  local ok, loaded = pcall(dofile, bundled)
  if ok and type(loaded) == 'table' then
    config = loaded
  else
    wezterm.log_error('Arb: failed to load bundled defaults from ' .. bundled)
  end
else
  wezterm.log_error('Arb: bundled defaults not found')
end

-- \u{2550}\u{2550}\u{2550}\u{2550}\u{2550}\u{2550}\u{2550}\u{2550}\u{2550}\u{2550}\u{2550}\u{2550}\u{2550}\u{2550}\u{2550}\u{2550}\u{2550}\u{2550}\u{2550}\u{2550}\u{2550}\u{2550}\u{2550}\u{2550}\u{2550}\u{2550}\u{2550}\u{2550}\u{2550}\u{2550}\u{2550}\u{2550}\u{2550}\u{2550}\u{2550}\u{2550}\u{2550}\u{2550}\u{2550}\u{2550}\u{2550}\u{2550}\u{2550}\u{2550}\u{2550}\u{2550}\u{2550}\u{2550}\u{2550}\u{2550}\u{2550}\u{2550}\u{2550}\u{2550}\u{2550}\u{2550}\u{2550}\u{2550}\u{2550}\u{2550}\u{2550}\u{2550}\u{2550}\u{2550}\u{2550}\u{2550}\u{2550}
-- User overrides
-- \u{2550}\u{2550}\u{2550}\u{2550}\u{2550}\u{2550}\u{2550}\u{2550}\u{2550}\u{2550}\u{2550}\u{2550}\u{2550}\u{2550}\u{2550}\u{2550}\u{2550}\u{2550}\u{2550}\u{2550}\u{2550}\u{2550}\u{2550}\u{2550}\u{2550}\u{2550}\u{2550}\u{2550}\u{2550}\u{2550}\u{2550}\u{2550}\u{2550}\u{2550}\u{2550}\u{2550}\u{2550}\u{2550}\u{2550}\u{2550}\u{2550}\u{2550}\u{2550}\u{2550}\u{2550}\u{2550}\u{2550}\u{2550}\u{2550}\u{2550}\u{2550}\u{2550}\u{2550}\u{2550}\u{2550}\u{2550}\u{2550}\u{2550}\u{2550}\u{2550}\u{2550}\u{2550}\u{2550}\u{2550}\u{2550}\u{2550}\u{2550}
-- Arb intentionally keeps WezTerm-compatible Lua API names
-- for maximum compatibility, so `wezterm.*` here is expected.

-- \u{2550}\u{2550}\u{2550} Appearance \u{2550}\u{2550}\u{2550}

-- Pick a font that feels right for long coding sessions
-- config.font = wezterm.font('JetBrains Mono')
-- config.font_size = 16.0

-- Switch color scheme to match your editor/IDE theme
-- config.color_scheme = 'Builtin Solarized Dark'

-- Fine-tune window padding for a cleaner look
-- config.window_padding = { left = '24px', right = '24px', top = '40px', bottom = '20px' }

-- \u{2550}\u{2550}\u{2550} Terminal Behavior \u{2550}\u{2550}\u{2550}

-- Set a preferred default shell (login mode for full profile loading)
-- config.default_prog = { '/bin/zsh', '-l' }

-- Choose a cursor style that's easy to spot in dense output
-- config.default_cursor_style = 'SteadyBar'

-- Keep more history so you can scroll back through build logs
-- config.scrollback_lines = 20000

-- Set initial window dimensions (columns x rows)
-- config.initial_cols = 120
-- config.initial_rows = 30

-- \u{2550}\u{2550}\u{2550} AI Coding Workflow \u{2550}\u{2550}\u{2550}

-- Large scrollback so you never lose AI-generated output
-- config.scrollback_lines = 50000

-- Wider window for side-by-side terminal + AI chat
-- config.initial_cols = 140

-- Skip the close confirmation \u{2014} AI sessions are easy to restart
-- config.window_close_confirmation = 'NeverPrompt'

-- Quick keybinding to open a new tab for parallel tasks
-- table.insert(config.keys, {
--   key = 't',
--   mods = 'CMD',
--   action = wezterm.action.SpawnTab 'CurrentPaneDomain',
-- })

-- \u{2550}\u{2550}\u{2550} Panes & Splits \u{2550}\u{2550}\u{2550}

-- Navigate between panes with Cmd+Arrow keys
-- table.insert(config.keys, {
--   key = 'LeftArrow',
--   mods = 'CMD',
--   action = wezterm.action.ActivatePaneDirection 'Left',
-- })
-- table.insert(config.keys, {
--   key = 'RightArrow',
--   mods = 'CMD',
--   action = wezterm.action.ActivatePaneDirection 'Right',
-- })
-- table.insert(config.keys, {
--   key = 'UpArrow',
--   mods = 'CMD',
--   action = wezterm.action.ActivatePaneDirection 'Up',
-- })
-- table.insert(config.keys, {
--   key = 'DownArrow',
--   mods = 'CMD',
--   action = wezterm.action.ActivatePaneDirection 'Down',
-- })

-- Split the current pane horizontally or vertically
-- table.insert(config.keys, {
--   key = 'd',
--   mods = 'CMD',
--   action = wezterm.action.SplitHorizontal { domain = 'CurrentPaneDomain' },
-- })
-- table.insert(config.keys, {
--   key = 'd',
--   mods = 'CMD|SHIFT',
--   action = wezterm.action.SplitVertical { domain = 'CurrentPaneDomain' },
-- })

-- Toggle pane zoom to focus on one pane temporarily
-- table.insert(config.keys, {
--   key = 'Enter',
--   mods = 'CMD|SHIFT',
--   action = wezterm.action.TogglePaneZoomState,
-- })

-- \u{2550}\u{2550}\u{2550} Advanced \u{2550}\u{2550}\u{2550}

-- Hide the tab bar for a distraction-free, minimal look
-- config.enable_tab_bar = false

-- Slight transparency to keep your desktop visible underneath
-- config.window_background_opacity = 0.95

-- Set environment variables for all shells launched by Arb
-- config.set_environment_variables = {
--   EDITOR = 'nvim',
-- }

return config
"
}

} // verus!
