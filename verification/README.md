# blur_launcher

The logic of the Blur LAN launcher, verified with Verus.

- `src/` is the library. The setup steps of a LAN session (network discovery, the
  firewall rules, the session itself, turning a network adapter off or on) are state
  machines: each takes the report of one outside step and says, with a proved
  contract, what it reports and which outside step comes next. The rest is the
  text, adapter, settings and file-check logic those steps use.
- `app/` is the Windows program around it: the Tauri window and tray, the registry,
  service, firewall, WMI and file-system calls, and the console launcher (`--console`).
  It performs the steps the library asks for and hands back what came of them.
- `tests/` runs the library on concrete values.
