//! The main window, and the deep links that lead to it.

use vstd::prelude::*;
use vstd::string::*;

use crate::config::optional_text;
use crate::install::{texts, APP_ID};
use crate::notifications::MAIN_WINDOW;
use crate::text::{
    decimal, decimal_text, decimal_text_is_decimal, decimal_text_is_digits, decimal_text_is_unique,
    decimal_value, digits_end_alike, is_decimal_of, parts_end_alike, same_tail,
};

verus! {

/// The title of the main window.
pub const WINDOW_TITLE: &'static str = "Word Condenser";

/// The page that the main window opens.
pub const START_PAGE: &'static str = "index.html";

/// The scheme of the deep links, which is also the identifier of the app.
pub const DEEP_LINK_SCHEME: &'static str = "wordcondenser";

/// The operating systems that are told apart.
#[derive(Clone, Copy, Debug, PartialEq, Eq, Structural)]
pub enum Os {
    /// macOS.
    MacOs,
    /// Linux.
    Linux,
    /// Any other.
    Other,
}

/// The main window. `T` is the type of texts, `L` that of lists of texts, `D` that of directories.
pub struct MainWindow<T, L, D> {
    /// The label of the window.
    pub label: T,
    /// The page that it opens.
    pub page: T,
    /// Its title.
    pub title: T,
    /// It has the menu of the app.
    pub menu: bool,
    /// It handles files that are dropped on it by itself, and not in the page.
    pub file_drop_handler: bool,
    /// Its size can be changed.
    pub resizable: bool,
    /// It opens in full size.
    pub maximized: bool,
    /// The directory of its data.
    pub data_directory: D,
    /// The scripts that run before the page, in their order.
    pub initialization_scripts: L,
}

/// Something to be done with the main window.
pub enum WindowCommand<T> {
    /// Send the page an event.
    Emit { event: T, payload: T },
    /// Draw the user's attention to the window.
    RequestAttention,
    /// Stop drawing the user's attention.
    ReleaseAttention,
    /// Show the window.
    Show,
    /// Bring the window back from the task bar.
    Unminimize,
    /// Give the window the focus.
    TakeFocus,
    /// Run a script in the page.
    Eval { script: T },
    /// Wait.
    Sleep { seconds: u64 },
}

impl<D> View for MainWindow<String, Vec<String>, D> {
    type V = MainWindow<Seq<char>, Seq<Seq<char>>, D>;

    open spec fn view(&self) -> Self::V {
        MainWindow {
            label: self.label@,
            page: self.page@,
            title: self.title@,
            menu: self.menu,
            file_drop_handler: self.file_drop_handler,
            resizable: self.resizable,
            maximized: self.maximized,
            data_directory: self.data_directory,
            initialization_scripts: texts(self.initialization_scripts@),
        }
    }
}

impl View for WindowCommand<String> {
    type V = WindowCommand<Seq<char>>;

    open spec fn view(&self) -> Self::V {
        match *self {
            WindowCommand::Emit { event, payload } => {
                WindowCommand::Emit { event: event@, payload: payload@ }
            },
            WindowCommand::RequestAttention => WindowCommand::RequestAttention,
            WindowCommand::ReleaseAttention => WindowCommand::ReleaseAttention,
            WindowCommand::Show => WindowCommand::Show,
            WindowCommand::Unminimize => WindowCommand::Unminimize,
            WindowCommand::TakeFocus => WindowCommand::TakeFocus,
            WindowCommand::Eval { script } => WindowCommand::Eval { script: script@ },
            WindowCommand::Sleep { seconds } => WindowCommand::Sleep { seconds },
        }
    }
}

/// The script that tells the page the ports of the conductor and the id of the app.
pub open spec fn environment_script(app_port: u16, admin_port: u16) -> Seq<char> {
    "window.__HC_LAUNCHER_ENV__ = { 'APP_INTERFACE_PORT': "@ + (decimal_text(app_port as nat) + (
    ", 'ADMIN_INTERFACE_PORT': "@ + (decimal_text(admin_port as nat) + (", 'INSTALLED_APP_ID': '"@
        + APP_ID@ + "' }"@))))
}

/// The script that tells the page when the app was started, in milliseconds.
pub open spec fn startup_script(startup_time: Option<u128>) -> Seq<char> {
    "window.__HC_KANGAROO__ = { startup_time: "@ + (match startup_time {
        Some(time) => decimal_text(time as nat),
        None => "undefined"@,
    }) + " }"@
}

/// The script that tells the page the deep link that the app was opened with.
pub open spec fn deep_link_script(deep_link: Seq<char>) -> Seq<char> {
    "window.localStorage.setItem('initialDeepLink', '"@ + deep_link + "')"@
}

/// The scripts of the main window.
pub open spec fn window_scripts(
    app_port: u16,
    admin_port: u16,
    startup_time: Option<u128>,
    deep_link_url: Option<Seq<char>>,
    zoom_on_scroll: Seq<char>,
) -> Seq<Seq<char>> {
    let scripts = seq![
        environment_script(app_port, admin_port),
        startup_script(startup_time),
        zoom_on_scroll,
    ];
    match deep_link_url {
        Some(deep_link) => scripts.push(deep_link_script(deep_link)),
        None => scripts,
    }
}

fn write_environment_script(app_port: u16, admin_port: u16) -> (script: String)
    ensures
        script@ == environment_script(app_port, admin_port),
{
    let script = "window.__HC_LAUNCHER_ENV__ = { 'APP_INTERFACE_PORT': ".to_string().concat(
        decimal(app_port as u128).as_str(),
    ).concat(", 'ADMIN_INTERFACE_PORT': ").concat(decimal(admin_port as u128).as_str()).concat(
        ", 'INSTALLED_APP_ID': '",
    ).concat(APP_ID).concat("' }");
    assert(script@ =~= environment_script(app_port, admin_port));
    script
}

fn write_startup_script(startup_time: Option<u128>) -> (script: String)
    ensures
        script@ == startup_script(startup_time),
{
    let time = match startup_time {
        Some(time) => decimal(time),
        None => "undefined".to_string(),
    };
    "window.__HC_KANGAROO__ = { startup_time: ".to_string().concat(time.as_str()).concat(" }")
}

/// Plans the main window of an app whose conductor listens on the given ports.
pub fn build_main_window<D>(
    profile_data_dir: D,
    app_port: u16,
    admin_port: u16,
    startup_time: Option<u128>,
    deep_link_url: Option<String>,
    zoom_on_scroll: &str,
) -> (window: MainWindow<String, Vec<String>, D>)
    ensures
        window@ == (MainWindow {
            label: MAIN_WINDOW@,
            page: START_PAGE@,
            title: WINDOW_TITLE@,
            menu: true,
            file_drop_handler: false,
            resizable: true,
            maximized: true,
            data_directory: profile_data_dir,
            initialization_scripts: window_scripts(
                app_port,
                admin_port,
                startup_time,
                optional_text(deep_link_url),
                zoom_on_scroll@,
            ),
        }),
{
    let mut scripts: Vec<String> = Vec::new();
    scripts.push(write_environment_script(app_port, admin_port));
    scripts.push(write_startup_script(startup_time));
    scripts.push(zoom_on_scroll.to_string());
    let ghost deep_link = optional_text(deep_link_url);
    if let Some(deep_link) = deep_link_url {
        scripts.push(
            "window.localStorage.setItem('initialDeepLink', '".to_string().concat(
                deep_link.as_str(),
            ).concat("')"),
        );
    }
    assert(texts(scripts@) =~= window_scripts(
        app_port,
        admin_port,
        startup_time,
        deep_link,
        zoom_on_scroll@,
    ));
    MainWindow {
        label: MAIN_WINDOW.to_string(),
        page: START_PAGE.to_string(),
        title: WINDOW_TITLE.to_string(),
        menu: true,
        file_drop_handler: false,
        resizable: true,
        maximized: true,
        data_directory: profile_data_dir,
        initialization_scripts: scripts,
    }
}

/// How many of the program's arguments are read for a deep link, its name counted: two, or none
/// on macOS.
pub open spec fn arguments_read(os: Os) -> nat {
    if os == Os::MacOs {
        0
    } else {
        2
    }
}

/// How many of the program's arguments are to be read for a deep link.
pub fn deep_link_arguments(os: Os) -> (count: usize)
    ensures
        count == arguments_read(os),
{
    if os == Os::MacOs {
        0
    } else {
        2
    }
}

/// The deep link that a program with these arguments was opened with.
pub open spec fn opened_with(args: Seq<Seq<char>>, os: Os) -> Option<Seq<char>> {
    if os != Os::MacOs && args.len() > 1 {
        Some(args[1])
    } else {
        None
    }
}

/// The deep link that the app was opened with: the first argument after the program's name. On
/// macOS deep links do not come as arguments.
pub fn initial_deep_link(args: &Vec<String>, os: Os) -> (deep_link: Option<String>)
    ensures
        optional_text(deep_link) == opened_with(texts(args@), os),
{
    if os != Os::MacOs && args.len() > 1 {
        Some(args[1].clone())
    } else {
        None
    }
}

/// The view of a row of commands.
pub open spec fn commands_view(commands: Seq<WindowCommand<String>>) -> Seq<
    WindowCommand<Seq<char>>,
> {
    commands.map_values(|command: WindowCommand<String>| command@)
}

/// What is done when a deep link comes in: the page is told, the window comes to the front and
/// draws attention to itself. On macOS the page keeps the link as the one the app was opened
/// with; on Linux the call for attention ends after ten seconds.
pub open spec fn deep_link_commands(request: Seq<char>, os: Os) -> Seq<WindowCommand<Seq<char>>> {
    seq![
        WindowCommand::Emit { event: "deep-link-received"@, payload: request },
        WindowCommand::RequestAttention,
        WindowCommand::Show,
        WindowCommand::Unminimize,
        WindowCommand::TakeFocus,
    ] + (match os {
        Os::MacOs => seq![
            WindowCommand::Eval {
                script: "window.localStorage.setItem('initialDeepLink', "@ + request + ")"@,
            },
        ],
        Os::Linux => seq![WindowCommand::Sleep { seconds: 10 }, WindowCommand::ReleaseAttention],
        Os::Other => seq![],
    })
}

/// Says what is to be done, in this order, when a deep link comes in.
pub fn deep_link_received(request: &str, os: Os) -> (commands: Vec<WindowCommand<String>>)
    ensures
        commands_view(commands@) == deep_link_commands(request@, os),
{
    let mut commands: Vec<WindowCommand<String>> = Vec::new();
    commands.push(
        WindowCommand::Emit {
            event: "deep-link-received".to_string(),
            payload: request.to_string(),
        },
    );
    commands.push(WindowCommand::RequestAttention);
    commands.push(WindowCommand::Show);
    commands.push(WindowCommand::Unminimize);
    commands.push(WindowCommand::TakeFocus);
    match os {
        Os::MacOs => {
            commands.push(
                WindowCommand::Eval {
                    script: "window.localStorage.setItem('initialDeepLink', ".to_string().concat(
                        request,
                    ).concat(")"),
                },
            );
        },
        Os::Linux => {
            commands.push(WindowCommand::Sleep { seconds: 10 });
            commands.push(WindowCommand::ReleaseAttention);
        },
        Os::Other => {},
    }
    assert(commands_view(commands@) =~= deep_link_commands(request@, os));
    commands
}

/// The page learns the ports: no two pairs of ports have the same script.
pub proof fn environment_script_tells_the_ports(
    app_port: u16,
    admin_port: u16,
    other_app_port: u16,
    other_admin_port: u16,
)
    requires
        environment_script(app_port, admin_port) == environment_script(
            other_app_port,
            other_admin_port,
        ),
    ensures
        app_port == other_app_port,
        admin_port == other_admin_port,
{
    reveal_strlit(", 'ADMIN_INTERFACE_PORT': ");
    reveal_strlit(", 'INSTALLED_APP_ID': '");
    let end = ", 'INSTALLED_APP_ID': '"@ + APP_ID@ + "' }"@;
    let admin = ", 'ADMIN_INTERFACE_PORT': "@ + (decimal_text(admin_port as nat) + end);
    let other_admin = ", 'ADMIN_INTERFACE_PORT': "@ + (decimal_text(other_admin_port as nat) + end);
    decimal_text_is_digits(app_port as nat);
    decimal_text_is_digits(other_app_port as nat);
    decimal_text_is_digits(admin_port as nat);
    decimal_text_is_digits(other_admin_port as nat);
    same_tail(
        "window.__HC_LAUNCHER_ENV__ = { 'APP_INTERFACE_PORT': "@,
        decimal_text(app_port as nat) + admin,
        decimal_text(other_app_port as nat) + other_admin,
    );
    assert(admin[0] == ',' && other_admin[0] == ',' && end[0] == ',');
    digits_end_alike(
        decimal_text(app_port as nat),
        admin,
        decimal_text(other_app_port as nat),
        other_admin,
    );
    same_tail(
        ", 'ADMIN_INTERFACE_PORT': "@,
        decimal_text(admin_port as nat) + end,
        decimal_text(other_admin_port as nat) + end,
    );
    digits_end_alike(
        decimal_text(admin_port as nat),
        end,
        decimal_text(other_admin_port as nat),
        end,
    );
    decimal_text_is_unique(app_port as nat, other_app_port as nat);
    decimal_text_is_unique(admin_port as nat, other_admin_port as nat);
}

/// The page learns when the app was started: no two times have the same script.
pub proof fn startup_script_tells_the_time(time: u128, other_time: u128)
    requires
        startup_script(Some(time)) == startup_script(Some(other_time)),
    ensures
        time == other_time,
{
    reveal_strlit(" }");
    decimal_text_is_digits(time as nat);
    decimal_text_is_digits(other_time as nat);
    let head = "window.__HC_KANGAROO__ = { startup_time: "@;
    let digits = decimal_text(time as nat);
    let other_digits = decimal_text(other_time as nat);
    assert(head + (digits + " }"@) =~= startup_script(Some(time)));
    assert(head + (other_digits + " }"@) =~= startup_script(Some(other_time)));
    same_tail(head, digits + " }"@, other_digits + " }"@);
    assert(" }"@[0] == ' ');
    digits_end_alike(digits, " }"@, other_digits, " }"@);
    decimal_text_is_unique(time as nat, other_time as nat);
}

/// A deep link changes nothing but to add one script, after all others.
pub proof fn deep_link_comes_last(
    app_port: u16,
    admin_port: u16,
    startup_time: Option<u128>,
    deep_link: Seq<char>,
    zoom_on_scroll: Seq<char>,
)
    ensures
        window_scripts(app_port, admin_port, startup_time, Some(deep_link), zoom_on_scroll).last()
            == deep_link_script(deep_link),
        window_scripts(
            app_port,
            admin_port,
            startup_time,
            Some(deep_link),
            zoom_on_scroll,
        ).drop_last() == window_scripts(app_port, admin_port, startup_time, None, zoom_on_scroll),
{
    assert(window_scripts(
        app_port,
        admin_port,
        startup_time,
        Some(deep_link),
        zoom_on_scroll,
    ).drop_last() =~= window_scripts(app_port, admin_port, startup_time, None, zoom_on_scroll));
}

/// The arguments that are read are enough to tell the deep link.
pub proof fn other_arguments_do_not_matter(args: Seq<Seq<char>>, count: nat, os: Os)
    requires
        arguments_read(os) <= count <= args.len(),
    ensures
        opened_with(args.take(count as int), os) == opened_with(args, os),
{
}

/// The first script of the window is made of a head, the app port, the name of the admin port, the
/// admin port and the id of the app, each port as a decimal number.
pub proof fn environment_script_holds_the_ports(
    app_port: u16,
    admin_port: u16,
    startup_time: Option<u128>,
    deep_link: Option<Seq<char>>,
    zoom_on_scroll: Seq<char>,
)
    ensures
        exists|app: Seq<char>, admin: Seq<char>|
            {
                &&& window_scripts(
                    app_port,
                    admin_port,
                    startup_time,
                    deep_link,
                    zoom_on_scroll,
                )[0] == "window.__HC_LAUNCHER_ENV__ = { 'APP_INTERFACE_PORT': "@ + (app + (
                ", 'ADMIN_INTERFACE_PORT': "@ + (admin + ", 'INSTALLED_APP_ID': 'Word Condenser' }"@
                )))
                &&& #[trigger] is_decimal_of(app, app_port as nat)
                &&& #[trigger] is_decimal_of(admin, admin_port as nat)
            },
{
    decimal_text_is_decimal(app_port as nat);
    decimal_text_is_decimal(admin_port as nat);
    let end = ", 'INSTALLED_APP_ID': '"@ + APP_ID@ + "' }"@;
    assert(end =~= ", 'INSTALLED_APP_ID': 'Word Condenser' }"@) by {
        reveal_strlit(", 'INSTALLED_APP_ID': '");
        reveal_strlit("Word Condenser");
        reveal_strlit("' }");
        reveal_strlit(", 'INSTALLED_APP_ID': 'Word Condenser' }");
    }
    assert(window_scripts(app_port, admin_port, startup_time, deep_link, zoom_on_scroll)[0]
        =~= "window.__HC_LAUNCHER_ENV__ = { 'APP_INTERFACE_PORT': "@ + (decimal_text(
        app_port as nat,
    ) + (", 'ADMIN_INTERFACE_PORT': "@ + (decimal_text(admin_port as nat) + end))));
}

/// The page reads the ports back: whatever stands between the name of a port and the next comma is
/// that port.
pub proof fn environment_script_reads_back(
    app_port: u16,
    admin_port: u16,
    startup_time: Option<u128>,
    deep_link: Option<Seq<char>>,
    zoom_on_scroll: Seq<char>,
    app: Seq<char>,
    admin: Seq<char>,
    end: Seq<char>,
)
    requires
        !app.contains(','),
        !admin.contains(','),
        end.len() > 0,
        end[0] == ',',
        window_scripts(app_port, admin_port, startup_time, deep_link, zoom_on_scroll)[0]
            == "window.__HC_LAUNCHER_ENV__ = { 'APP_INTERFACE_PORT': "@ + (app + (
        ", 'ADMIN_INTERFACE_PORT': "@ + (admin + end))),
    ensures
        decimal_value(app) == app_port,
        decimal_value(admin) == admin_port,
{
    environment_script_holds_the_ports(
        app_port,
        admin_port,
        startup_time,
        deep_link,
        zoom_on_scroll,
    );
    let (told_app, told_admin) = choose|told_app: Seq<char>, told_admin: Seq<char>|
        {
            &&& window_scripts(
                app_port,
                admin_port,
                startup_time,
                deep_link,
                zoom_on_scroll,
            )[0] == "window.__HC_LAUNCHER_ENV__ = { 'APP_INTERFACE_PORT': "@ + (told_app + (
            ", 'ADMIN_INTERFACE_PORT': "@ + (told_admin
                + ", 'INSTALLED_APP_ID': 'Word Condenser' }"@)))
            &&& #[trigger] is_decimal_of(told_app, app_port as nat)
            &&& #[trigger] is_decimal_of(told_admin, admin_port as nat)
        };
    let told_end = ", 'INSTALLED_APP_ID': 'Word Condenser' }"@;
    reveal_strlit(", 'ADMIN_INTERFACE_PORT': ");
    reveal_strlit(", 'INSTALLED_APP_ID': 'Word Condenser' }");
    let rest = ", 'ADMIN_INTERFACE_PORT': "@ + (admin + end);
    let told_rest = ", 'ADMIN_INTERFACE_PORT': "@ + (told_admin + told_end);
    assert(rest[0] == ',' && told_rest[0] == ',' && told_end[0] == ',');
    same_tail(
        "window.__HC_LAUNCHER_ENV__ = { 'APP_INTERFACE_PORT': "@,
        app + rest,
        told_app + told_rest,
    );
    parts_end_alike(app, rest, told_app, told_rest, ',');
    same_tail(", 'ADMIN_INTERFACE_PORT': "@, admin + end, told_admin + told_end);
    parts_end_alike(admin, end, told_admin, told_end, ',');
}

/// The second script of the window holds the time of the start as a decimal number, or says that
/// it is not defined.
pub proof fn startup_script_holds_the_time(
    app_port: u16,
    admin_port: u16,
    startup_time: Option<u128>,
    deep_link: Option<Seq<char>>,
    zoom_on_scroll: Seq<char>,
)
    ensures
        exists|time: Seq<char>|
            window_scripts(app_port, admin_port, startup_time, deep_link, zoom_on_scroll)[1]
                == "window.__HC_KANGAROO__ = { startup_time: "@ + #[trigger] (time + " }"@)
                && match startup_time {
                Some(millis) => is_decimal_of(time, millis as nat),
                None => time == "undefined"@,
            },
{
    let time = match startup_time {
        Some(millis) => decimal_text(millis as nat),
        None => "undefined"@,
    };
    if startup_time is Some {
        decimal_text_is_decimal(startup_time->Some_0 as nat);
    }
    assert(window_scripts(app_port, admin_port, startup_time, deep_link, zoom_on_scroll)[1]
        =~= "window.__HC_KANGAROO__ = { startup_time: "@ + (time + " }"@));
}

/// The third script is the one for the mouse wheel as it was given. A fourth is there exactly if
/// there is a deep link, and hands that link to the page in quotes.
pub proof fn other_scripts_hold_what_was_given(
    app_port: u16,
    admin_port: u16,
    startup_time: Option<u128>,
    deep_link: Option<Seq<char>>,
    zoom_on_scroll: Seq<char>,
)
    ensures
        ({
            let scripts = window_scripts(
                app_port,
                admin_port,
                startup_time,
                deep_link,
                zoom_on_scroll,
            );
            &&& scripts[2] == zoom_on_scroll
            &&& deep_link is None ==> scripts.len() == 3
            &&& deep_link matches Some(link) ==> scripts.len() == 4 && scripts[3]
                == "window.localStorage.setItem('initialDeepLink', '"@ + link + "')"@
        }),
{
}

/// A deep link comes from the arguments exactly on systems other than macOS, and is the argument
/// after the program's name.
pub proof fn deep_link_is_the_first_argument(args: Seq<Seq<char>>, os: Os, link: Seq<char>)
    ensures
        opened_with(args, os) == Some(link) <==> (os == Os::Linux || os == Os::Other) && args.len()
            >= 2 && args[1] == link,
        opened_with(args, os) is None <==> os == Os::MacOs || args.len() < 2,
{
}

/// No more arguments are read than it takes: none where none matters, and else as many as lead to
/// the one that does.
pub proof fn no_argument_is_read_in_vain(args: Seq<Seq<char>>, os: Os)
    requires
        args.len() >= 2,
    ensures
        arguments_read(os) == 0 <==> opened_with(args, os) is None,
        arguments_read(os) > 0 ==> opened_with(args.take(arguments_read(os) as int), os) == Some(
            args[arguments_read(os) - 1],
        ),
        forall|count: int|
            0 <= count < arguments_read(os) ==> #[trigger] opened_with(args.take(count), os)
                is None,
{
}

/// Every deep link that comes in is told to the page as it came, before the window draws
/// attention to itself, is shown, comes back from the task bar and takes the focus.
pub proof fn deep_link_reaches_page_and_user(request: Seq<char>, os: Os)
    ensures
        ({
            let commands = deep_link_commands(request, os);
            &&& commands.len() >= 5
            &&& commands[0] == (WindowCommand::Emit {
                event: "deep-link-received"@,
                payload: request,
            })
            &&& commands[1] is RequestAttention
            &&& commands[2] is Show
            &&& commands[3] is Unminimize
            &&& commands[4] is TakeFocus
        }),
{
}

/// What follows depends on the system: macOS keeps the link in the page, Linux ends the call for
/// attention after ten seconds, and nothing follows elsewhere.
pub proof fn deep_link_is_followed_up(request: Seq<char>, os: Os)
    ensures
        ({
            let commands = deep_link_commands(request, os);
            &&& os == Os::MacOs <==> commands.len() == 6
            &&& os == Os::Linux <==> commands.len() == 7
            &&& os == Os::Other <==> commands.len() == 5
            &&& os == Os::MacOs ==> commands[5] == (WindowCommand::Eval {
                script: "window.localStorage.setItem('initialDeepLink', "@ + request + ")"@,
            })
            &&& os == Os::Linux ==> commands[5] == (WindowCommand::<Seq<char>>::Sleep {
                seconds: 10,
            }) && commands[6] is ReleaseAttention
        }),
{
}

/// Whatever is asked for, the main window has its label, its page and its title, has the menu of
/// the app, leaves dropped files to the page, can be resized and opens in full size, and keeps its
/// data in the directory of the profile.
pub proof fn main_window_is_the_same_for_all<D>(
    profile_data_dir: D,
    app_port: u16,
    admin_port: u16,
    startup_time: Option<u128>,
    deep_link_url: Option<String>,
    zoom_on_scroll: &str,
    window: MainWindow<String, Vec<String>, D>,
)
    requires
        call_ensures(
            build_main_window::<D>,
            (
                profile_data_dir,
                app_port,
                admin_port,
                startup_time,
                deep_link_url,
                zoom_on_scroll,
            ),
            window,
        ),
    ensures
        window.label@ == "main"@,
        window.page@ == "index.html"@,
        window.title@ == "Word Condenser"@,
        window.menu,
        !window.file_drop_handler,
        window.resizable,
        window.maximized,
        window.data_directory == profile_data_dir,
{
}

/// The commands that a deep link leads to hold the link as it came: the page is told it first, and
/// on macOS it is also kept there. On Linux the wait comes before attention is let go.
pub proof fn commands_hold_the_deep_link(
    request: &str,
    os: Os,
    commands: Vec<WindowCommand<String>>,
)
    requires
        call_ensures(deep_link_received, (request, os), commands),
    ensures
        commands@.len() == (if os == Os::MacOs {
            6int
        } else if os == Os::Linux {
            7
        } else {
            5
        }),
        commands@[0] matches WindowCommand::Emit { event, payload } && event@
            == "deep-link-received"@ && payload@ == request@,
        commands@[1] is RequestAttention,
        commands@[2] is Show,
        commands@[3] is Unminimize,
        commands@[4] is TakeFocus,
        os == Os::MacOs ==> (commands@[5] matches WindowCommand::Eval { script } && script@
            == "window.localStorage.setItem('initialDeepLink', "@ + request@ + ")"@),
        os == Os::Linux ==> (commands@[5] matches WindowCommand::Sleep { seconds } && seconds == 10)
            && commands@[6] is ReleaseAttention,
{
    let views = commands_view(commands@);
    deep_link_reaches_page_and_user(request@, os);
    deep_link_is_followed_up(request@, os);
    assert(views.len() == commands@.len());
    assert(views[0] == commands@[0]@);
    assert(views[1] == commands@[1]@);
    assert(views[2] == commands@[2]@);
    assert(views[3] == commands@[3]@);
    assert(views[4] == commands@[4]@);
    if os != Os::Other {
        assert(views[5] == commands@[5]@);
    }
    if os == Os::Linux {
        assert(views[6] == commands@[6]@);
    }
}

} // verus!
