# quotewall

A small web app that prints submitted quotes on an ESC/POS thermal receipt
printer. The decisions it takes are verified with Verus:

- `src/submission.rs`: what a submission is, its validation, the decision on
  the JPEG picture from what the decoder reported, and the reading of the
  multipart form part by part.
- `src/receipt.rs`: the layout of a receipt as a list of printer steps.
- `src/status.rs`: the printer's availability from its real-time status bytes.
- `src/worker.rs`: the printer thread's state machine and its retries when
  opening the device.
- `src/api.rs`: error answers and the answers built from the worker's replies.
- `src/assets.rs`: which embedded files are served, with what content type.

`app/main.rs` holds the HTTP server (axum), the printer thread that performs
the worker's actions with the `escpos` crate, the JPEG decoder run, and the
image processing (resizing, contrast, dithering), which works in floating
point.

## The submission JSON

The submission part is a JSON object with the keys `message` (1 to 500
characters), `author` (optional; 1 to 50 characters when present) and `type`
(`"wisdom"` or `"quote"`); any other key is refused. This is the shape that
the receipt printing reads: the title comes from `type`, and the signature
line is printed only when there is an author.

## The JPEG decoder

The JPEG decoder of the `image` crate (zune-jpeg underneath) does not promise
to return rather than panic on malformed input, so the library does not call
it. The server runs it on a blocking task of its own and hands what it
reported (the header's size, and whether the full decode worked) to
`validate_jpeg`, which decides; a task that stopped is answered with a 500
"The image validator stopped unexpectedly".

The web assets are embedded from `/usr/share/quotewall/web/`; a build without
that folder serves only 404s.
