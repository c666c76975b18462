# flup

A small file sharing service. A file that is uploaded gets an id from its content, is kept
under that id, and is served from then on. Public files are listed.

The library under `src/` holds the rules of the service, with contracts that Verus proves:

- `upload`, `fetch`: an upload and a fetch, as chains of steps. A step says what is to be done
  outside (send a command, read or write a file); the next method takes the step and its
  outcome and decides what follows.
- `db`: the commands that put files into Redis and get them out.
- `form`, `request`: reading an upload out of an HTTP request.
- `handler`, `response`, `routes`: what is answered, and to which requests.
- `filename`, `hash`, `text`, `url`: short names, file ids and uploader tags, splitting text,
  which texts are read as URLs.
- `store`, `world`: models of the database and the disk, and what holds of the service as a
  whole: a file that was uploaded is served, uploading it again changes nothing, uploads leave
  other files alone, listings show the latest files first.

MD5 digests, media types, URLs and the address of the database go through `rust-crypto`,
`mime_guess`, `iron` and `r2d2_redis`; the functions that call them say what is relied on.

The program under `app/` reads `config.toml`, talks to Redis and the disk, and serves HTTP. It
runs the steps that the library hands out.
