# vote42

The polling-station client of a small election system, with its pre-server.

- `src/` is the verified library (Verus): the vote records (`datatypes`),
  the text rules for typed counts and key headers (`text`), the SSH key
  checks (`ssh_key`), the station's directory layout and the pre-server
  template paths (`layout`), the lookup of JSON settings (`json_field`), the
  vote file name (`paths`) and the pre-server's answer (`pre_server`).
- `app/` is the program around it: file and network I/O, the terminal, the
  JSON forms of the records, and the pre-server's event loop. The program
  is the client; `vote42 pre-server` runs the pre-server.
- `tests/` runs the library on concrete values.
