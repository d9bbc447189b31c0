# hcrmi

Turns folders of screenshots and photos into AVIF files together with the
text that OCR reads from them.

- `src/` is the verified library: routing of picture files by extension and
  their decoding to RGB (`codecs::decoder`), the 8-bit RGB JPEG and PNG
  decoders (`decoders`), grouping of RGB bytes into pixels for the AVIF
  encoder (`codecs::encoder`), cleaning of OCR text (`ocr`), the JSON report
  of OCR results (`report`), the AVIF file names (`naming`), the schedules
  of the encoding benchmarks (`benchmark`) and the pipeline's types
  (`prototype`, `batch`, `error`).
- `app/` is the program around it: file and archive I/O, OCR with tesseract,
  AVIF encoding with ravif (its quality is a float), the async pipelines and
  the benchmarks' timing.
- `tests/` runs the library on pictures built in memory.
