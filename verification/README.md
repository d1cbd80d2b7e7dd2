# CornerPin

Keeps Telegram, or any window of your choice, pinned to a corner of the screen on Windows. The
strip that the window needs is reserved at the right or the left edge, the way the task bar reserves
its own, so maximized and snapped windows stay out of it. If the pinned window is minimized,
maximized or moved away, it is back in its place within half a second. A tray icon holds the menu.

- Four corners: lower right (Sağ Alt), upper right (Sağ Üst), lower left (Sol Alt), upper left
  (Sol Üst).
- Three sizes: the size that the window has (Mevcut Boyut), 420 pixels at full height, 520 pixels at
  full height. A window that keeps its size stands at the upper or the lower end of its strip.

## Layout

`src/` is the library: every rule of the program, written in Verus and proved. It never talks to
Windows. Where a rule needs an answer from outside, it is a step from a state and an event to the
next state and an action.

| module     | what it decides                                                        |
|------------|------------------------------------------------------------------------|
| `text`     | cutting, searching and comparing texts                                  |
| `utf16`    | texts as zero-terminated UTF-16, in fixed buffers and back              |
| `geometry` | rectangles, strips and their ends, and when a window is out of place    |
| `settings` | what the user chose, and where that is kept                             |
| `state`    | what is remembered while running                                        |
| `windows`  | which windows can be pinned and which of them a text means              |
| `appbar`   | reserving the strip and giving it up                                    |
| `pin`      | a round of the watch over the pinned window                             |
| `menu`     | the tray menu                                                           |
| `commands` | what the entries of the menu do                                         |
| `messages` | what the messages of the window system mean and what they are answered  |
| `tray`     | what the shell is told of the tray icon                                 |
| `icon`     | the picture of the tray icon, and when the stock icon stands in for it  |
| `startup`  | the registry value that starts the program with Windows                 |
| `win32`    | the constants of the Windows API that the rules use                     |

`app/` is the program around it: windows, messages, the registry and the settings file. It performs
the actions and hands back the events. On anything but Windows it only says so.

`tests/` runs the library on concrete values.

## What is trusted

Verus takes three functions of the standard library at their word: `str::to_lowercase` (its result
depends on the text alone), `String::push`, and `char::from_u32`.

## What is proved

Each function states exactly what it returns or changes. Beyond that, among other things:

- a round of the watch ends after at most sixteen answers and keeps the state sound;
- a window that was minimized, maximized or moved comes back, and one that is in place is left alone;
- only the pinned window is moved, and only to its place in the strip that the shell granted;
- it stands in the chosen corner, and a window that keeps its size keeps its height;
- at the end of a round a strip is held exactly if there is a window;
- a strip is asked for again only where it has to be, and it is given up when the window is gone;
- a window is measured once; a round shows its balloon exactly if it ends with a window that was
  not announced before;
- every message that is not left to the window system has its answer;
- an exact title goes before a partial one, an earlier window before a later one;
- no two menu entries share a command, and each entry does what it says;
- decoding UTF-16 undoes encoding it.
