# systemstats

A verified library for a system statistics panel applet, with the applet
around it.

- `src/color.rs`: reading statuses (Low / Medium / High) and their colours.
- `src/hexcolor.rs`: reading colour text such as `"#00B4D8"` into `0xRRGGBB`.
- `src/config.rs`: label and monitor settings with their defaults.
- `src/configfile.rs`: the text of the default configuration file.
- `src/loading.rs`: the decisions taken while loading the configuration file.
- `src/panel.rs`: the layout of the panel row.
- `app/`: configuration file I/O, floating-point thresholds and colours, and
  the toolkit application.
