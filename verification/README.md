# Word Condenser shell

The desktop shell of Word Condenser starts a keystore and a conductor, installs the app in the
conductor and shows it in a window, with an icon in the system tray.

`src/` decides. Each procedure of the shell is a row of steps; a step says what is to be done, the
outcome comes back as an event, and a verified function says which step follows.

| module          | what it decides                                                        |
|-----------------|------------------------------------------------------------------------|
| `launch`        | the launch of the keystore and the conductor (`launch_laws`: what holds of every launch) |
| `install`       | the installation of the app                                            |
| `config`        | the configuration of the conductor                                     |
| `seed`          | the seed of the app's network                                          |
| `conductor`     | the building of a conductor inside the app                             |
| `notifications` | notifications to the user                                              |
| `tray`          | the icon in the system tray                                            |
| `window`        | the main window, its scripts, deep links                               |
| `lifecycle`     | closing windows and ending the app                                     |
| `profile`       | the profile that the app runs with                                     |
| `errors`, `text` | errors; searching texts and writing numbers                           |

`app/` does: it opens windows, starts processes, reads and writes files, and reports to `src/`.

Types that hold texts take the type of texts as a parameter. Code uses `String`; contracts speak of
the same types over `Seq<char>`.
