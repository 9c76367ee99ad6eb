# guntamatic

A client for Guntamatic heating devices, with its core verified in Verus.

- `src/` is the verified library: the DAQ model (`daq`), the conversion of
  readings into time-series points (`points`), the parameter-setting requests
  (`api`), the command line tool's decisions (`cli`), and decimal text
  (`text`).
- `app/` is the `guntamatic` command line tool around it: argument parsing,
  logging, HTTP requests, JSON decoding and the InfluxDB client.
- `tests/` exercises the library on concrete values.
