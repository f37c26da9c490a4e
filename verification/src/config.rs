use crate::color::Color;
use vstd::prelude::*;

verus! {

/// Which monitors the greeter covers.
#[derive(Clone, Copy, Debug, PartialEq, Eq, Structural)]
pub enum OutputMode {
    /// One surface on every monitor.
    All,
    /// One surface, on whichever monitor the display server picks.
    Active,
}

impl Default for OutputMode {
    fn default() -> (mode: OutputMode)
        ensures
            mode == OutputMode::All,
    {
        OutputMode::All
    }
}

pub fn default_scale() -> (scale: u32)
    ensures
        scale == 1,
{
    1
}

pub fn default_background() -> (c: Color)
    ensures
        c == (Color { red: 0, green: 0, blue: 0, opacity: 229 }),
{
    Color::new(0, 0, 0, 229)
}

pub fn default_cmd() -> (cmd: String)
    ensures
        cmd@ == Seq::<char>::empty(),
{
    String::new()
}

pub fn default_headline() -> (c: Color)
    ensures
        c == (Color { red: 255, green: 255, blue: 255, opacity: 255 }),
{
    Color::new(255, 255, 255, 255)
}

pub fn default_prompt() -> (c: Color)
    ensures
        c == (Color { red: 255, green: 255, blue: 255, opacity: 255 }),
{
    Color::new(255, 255, 255, 255)
}

pub fn default_prompt_err() -> (c: Color)
    ensures
        c == (Color { red: 255, green: 255, blue: 255, opacity: 255 }),
{
    Color::new(255, 255, 255, 255)
}

pub fn default_border() -> (c: Color)
    ensures
        c == (Color { red: 255, green: 255, blue: 255, opacity: 255 }),
{
    Color::new(255, 255, 255, 255)
}

/// What is read once at start and never changed after.
#[derive(Clone, Debug)]
pub struct Config {
    pub output_mode: OutputMode,
    /// How many buffer pixels make one surface unit, each way.
    pub scale: u32,
    pub background: Color,
    pub headline: Color,
    pub prompt: Color,
    pub prompt_err: Color,
    pub border: Color,
    /// The command that a session starts with.
    pub command: String,
}

impl Default for Config {
    fn default() -> (config: Config)
        ensures
            config.output_mode == OutputMode::All,
            config.scale == 1,
            config.background == (Color { red: 0, green: 0, blue: 0, opacity: 229 }),
            config.headline == (Color { red: 255, green: 255, blue: 255, opacity: 255 }),
            config.prompt == config.headline,
            config.prompt_err == config.headline,
            config.border == config.headline,
            config.command@ == Seq::<char>::empty(),
    {
        Config {
            output_mode: OutputMode::default(),
            scale: default_scale(),
            background: default_background(),
            headline: default_headline(),
            prompt: default_prompt(),
            prompt_err: default_prompt_err(),
            border: default_border(),
            command: default_cmd(),
        }
    }
}

impl Config {
    /// The configuration with its command replaced by `command`, where one
    /// is given.
    pub fn with_command(self, command: Option<String>) -> (config: Config)
        ensures
            config.output_mode == self.output_mode,
            config.scale == self.scale,
            config.background == self.background,
            config.headline == self.headline,
            config.prompt == self.prompt,
            config.prompt_err == self.prompt_err,
            config.border == self.border,
            config.command == match command {
                Some(c) => c,
                None => self.command,
            },
    {
        match command {
            Some(c) => Config {
                output_mode: self.output_mode,
                scale: self.scale,
                background: self.background,
                headline: self.headline,
                prompt: self.prompt,
                prompt_err: self.prompt_err,
                border: self.border,
                command: c,
            },
            None => self,
        }
    }
}

} // verus!
