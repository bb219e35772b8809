# DevSerial

A serial hardware bridge: a daemon that captures serial ports into queryable
databases, with a command line, an MCP server, an HTTP interface and monitor
windows around it.

The logic is a library verified with [Verus](https://github.com/verus-lang/verus).
Every executable function carries its contract, and the laws of the library are
public proof functions beside the code they speak of.

## Layout

- `src/` is the verified library.
  - `text`, `hex`, `json`, `clock`, `table`, `pattern`: text, numbers, JSON,
    instants, ordered tables and regular expressions.
  - `serial_params`, `config`, `paths`, `protocol`, `storage`, `reader`, `state`:
    settings, places in the file system and the values that are exchanged.
  - `modem`: XMODEM, YMODEM and ZMODEM as machines that take what happened on the
    line and say what is to be sent and awaited.
  - `port_manager`, `engine`: the table of managed ports, and every operation of
    the daemon as a sequence of decisions and work.
  - `ipc`, `cli`, `server`, `rest`, `standalone`, `gui_ipc`: what the transports
    ask and answer.
  - `export`, `esp`, `monitor`, `platform`: files, the flashing tool's output, the
    state of the windows and what the platforms do differently.
- `app/` is the program: files, sockets, devices, processes and drawing. It
  carries out what the library decides.
- `tests/` runs the library on concrete values.

## Trust

Calls into other crates and into parts of std without a specification stand
behind small functions whose doc comments say what is believed of them. They are
in `pattern` (regex), `clock` (chrono), `json` (serde_json) and `text` (std).
