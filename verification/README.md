# rustkeyboard

An RGB lighting controller for MSI-based laptop keyboards, with its logic
verified by Verus.

- `src/` is the verified library:
  - `config`: the stored configuration, its defaults, normalization to seven
    colour zones and what loading settles on;
  - `hid`: the USB HID protocol: device ids, the wake-up and lighting reports,
    and the keyboard status read from the device list;
  - `hotkey`: recognising and debouncing Fn+F8 and cycling the hardware effect;
  - `i18n`: languages, their codes and the UI texts;
  - `startup`: the PowerShell commands for "Start on Boot" and how their
    output is read;
  - `tray`: what tray clicks and menu choices do;
  - `gui`: the state of the main window and its reactions to user actions;
  - `window`: logic of the native Win32 window (colours, slider, selectors,
    notifications, styles);
  - `text`: string helpers (equality, concatenation, white space, quoting,
    UTF-16).
- `app/` is the Windows program around it: the eframe window, the keyboard
  hook, the tray icon, HID and file I/O.
- `tests/` runs the library on concrete values.
