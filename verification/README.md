# ai_toolkit

A research group's AI toolkit as a web service: a summarizer and translator
of papers, a DOCX translator, an information extractor that fills a
spreadsheet from PDFs, a manuscript grader with journal recommendations, a
three-round referee, usage quotas per group, job history and an
administration dashboard.

- `src/` is the library, verified with Verus: job statuses, upload checks
  and stored-file naming, prompts and model requests, document chunking and
  the per-document translation state, grading bookkeeping and keyword
  cleaning, the referee's rounds, usage limits, form validation, access
  rules, sign-in decisions and every HTML page the service renders.
- `app/` is the service around it: the HTTP routes, the database, the calls
  to the model providers, reading and writing PDF, DOCX and XLSX files, and
  the grader's floating-point scoring.
- `tests/` exercises the library on concrete inputs.
